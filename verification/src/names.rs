//! Namespace and qualified-name model.
//!
//! A `SimpleIdentifier` is one validated CSDL name token, a `Namespace`
//! is a non-empty dotted sequence of such tokens, and a `QualifiedName`
//! is a namespace plus a terminal identifier, unique across the whole
//! schema universe.

use vstd::prelude::*;

use crate::check_identifier_part;
use crate::check_identifier_start;
use crate::is_identifier_part;
use crate::is_identifier_start;
use crate::is_simple_identifier;

verus! {

/// Error for a string that fails identifier validation.
#[derive(Debug, PartialEq, Eq, Structural)]
pub enum IdentifierError {
    /// The string does not match the simple-identifier grammar.
    NotAnIdentifier,
}

/// A validated simple name token (no dots).
#[derive(Debug)]
pub struct SimpleIdentifier {
    s: String,
}

impl View for SimpleIdentifier {
    type V = Seq<char>;

    closed spec fn view(&self) -> Seq<char> {
        self.s@
    }
}

impl SimpleIdentifier {
    /// The identifier grammar holds for the stored characters.
    pub open spec fn wf(&self) -> bool {
        is_simple_identifier(self@)
    }

    /// Validate a string against the simple-identifier grammar.
    pub fn parse(s: &str) -> (r: Result<SimpleIdentifier, IdentifierError>)
        ensures
            r is Ok <==> is_simple_identifier(s@),
            r matches Ok(id) ==> id@ == s@ && id.wf(),
    {
        let n = s.unicode_len();
        if n == 0 {
            return Err(IdentifierError::NotAnIdentifier);
        }
        if !check_identifier_start(s.get_char(0)) {
            return Err(IdentifierError::NotAnIdentifier);
        }
        let mut i: usize = 1;
        while i < n
            invariant
                1 <= i <= n,
                n == s@.len(),
                is_identifier_start(s@[0]),
                forall|j: int| 0 < j < i ==> is_identifier_part(#[trigger] s@[j]),
            decreases n - i,
        {
            if !check_identifier_part(s.get_char(i)) {
                return Err(IdentifierError::NotAnIdentifier);
            }
            i += 1;
        }
        Ok(SimpleIdentifier { s: s.to_owned() })
    }

    /// The stored characters.
    pub fn as_str(&self) -> (r: &str)
        ensures
            r@ == self@,
    {
        self.s.as_str()
    }
}

impl Clone for SimpleIdentifier {
    fn clone(&self) -> (r: Self)
        ensures
            r == *self,
    {
        SimpleIdentifier { s: self.s.clone() }
    }
}

impl PartialEq for SimpleIdentifier {
    fn eq(&self, other: &Self) -> (r: bool) {
        self.s == other.s
    }
}

impl vstd::std_specs::cmp::PartialEqSpecImpl for SimpleIdentifier {
    open spec fn obeys_eq_spec() -> bool {
        true
    }

    open spec fn eq_spec(&self, other: &Self) -> bool {
        self@ == other@
    }
}

/// A dotted, non-empty sequence of identifiers.
#[derive(Debug)]
pub struct Namespace {
    segments: Vec<SimpleIdentifier>,
}

impl View for Namespace {
    type V = Seq<Seq<char>>;

    closed spec fn view(&self) -> Seq<Seq<char>> {
        self.segments@.map_values(|id: SimpleIdentifier| id@)
    }
}

impl Namespace {
    /// Non-empty, and every segment matches the identifier grammar.
    pub open spec fn wf(&self) -> bool {
        &&& self@.len() > 0
        &&& forall|i: int| 0 <= i < self@.len() ==> is_simple_identifier(#[trigger] self@[i])
    }

    /// Build a namespace from its segments; `None` when none are given.
    pub fn new(segments: Vec<SimpleIdentifier>) -> (r: Option<Namespace>)
        ensures
            r is Some <==> segments@.len() > 0,
            r matches Some(ns) ==> ns@ == segments@.map_values(|id: SimpleIdentifier| id@),
    {
        if segments.len() == 0 {
            None
        } else {
            Some(Namespace { segments })
        }
    }

    /// Number of segments.
    pub fn len(&self) -> (r: usize)
        ensures
            r == self@.len(),
    {
        self.segments.len()
    }

    /// The namespace with the trailing segment dropped; `None` once only
    /// one segment remains.
    pub fn parent(&self) -> (r: Option<Namespace>)
        requires
            self.wf(),
        ensures
            r is Some <==> self@.len() > 1,
            r matches Some(p) ==> p@ == self@.drop_last() && p.wf(),
    {
        if self.segments.len() <= 1 {
            return None;
        }
        let mut segments: Vec<SimpleIdentifier> = Vec::new();
        let end = self.segments.len() - 1;
        let mut i: usize = 0;
        while i < end
            invariant
                0 <= i <= end,
                end == self.segments@.len() - 1,
                segments@.len() == i,
                forall|j: int| 0 <= j < i ==> #[trigger] segments@[j]@ == self.segments@[j]@,
            decreases end - i,
        {
            segments.push(self.segments[i].clone());
            i += 1;
        }
        let p = Namespace { segments };
        proof {
            assert(p@ =~= self@.drop_last());
            assert(forall|i: int|
                0 <= i < self@.len() - 1 ==> self@.drop_last()[i] == #[trigger] self@[i]);
        }
        Some(p)
    }

    /// The segment at `depth`, bounds-checked.
    pub fn get_id(&self, depth: usize) -> (r: Option<&SimpleIdentifier>)
        ensures
            r is Some <==> depth < self@.len(),
            r matches Some(id) ==> id@ == self@[depth as int],
    {
        if depth < self.segments.len() {
            Some(&self.segments[depth])
        } else {
            None
        }
    }
}

impl Clone for Namespace {
    fn clone(&self) -> (r: Self)
        ensures
            r@ == self@,
    {
        let mut segments: Vec<SimpleIdentifier> = Vec::new();
        let mut i: usize = 0;
        while i < self.segments.len()
            invariant
                0 <= i <= self.segments@.len(),
                segments@.len() == i,
                forall|j: int| 0 <= j < i ==> #[trigger] segments@[j]@ == self.segments@[j]@,
            decreases self.segments@.len() - i,
        {
            segments.push(self.segments[i].clone());
            i += 1;
        }
        let r = Namespace { segments };
        proof {
            assert(r@ =~= self@);
        }
        r
    }
}

impl PartialEq for Namespace {
    fn eq(&self, other: &Self) -> (r: bool) {
        if self.segments.len() != other.segments.len() {
            proof {
                assert(self@.len() != other@.len());
            }
            return false;
        }
        let mut i: usize = 0;
        while i < self.segments.len()
            invariant
                0 <= i <= self.segments@.len(),
                self.segments@.len() == other.segments@.len(),
                forall|j: int| 0 <= j < i ==> #[trigger] self@[j] == other@[j],
            decreases self.segments@.len() - i,
        {
            if !(self.segments[i] == other.segments[i]) {
                proof {
                    assert(self@[i as int] != other@[i as int]);
                }
                return false;
            }
            i += 1;
        }
        proof {
            assert(self@ =~= other@);
        }
        true
    }
}

impl vstd::std_specs::cmp::PartialEqSpecImpl for Namespace {
    open spec fn obeys_eq_spec() -> bool {
        true
    }

    open spec fn eq_spec(&self, other: &Self) -> bool {
        self@ == other@
    }
}

/// Name of a property inside a type: a validated simple identifier.
#[derive(Debug)]
pub struct PropertyName {
    id: SimpleIdentifier,
}

impl View for PropertyName {
    type V = Seq<char>;

    closed spec fn view(&self) -> Seq<char> {
        self.id@
    }
}

impl PropertyName {
    /// The identifier grammar holds for the stored characters.
    pub open spec fn wf(&self) -> bool {
        is_simple_identifier(self@)
    }

    /// Validate a string as a property name.
    pub fn parse(s: &str) -> (r: Result<PropertyName, IdentifierError>)
        ensures
            r is Ok <==> is_simple_identifier(s@),
            r matches Ok(n) ==> n@ == s@ && n.wf(),
    {
        match SimpleIdentifier::parse(s) {
            Ok(id) => Ok(PropertyName { id }),
            Err(e) => Err(e),
        }
    }

    /// The stored characters.
    pub fn as_str(&self) -> (r: &str)
        ensures
            r@ == self@,
    {
        self.id.as_str()
    }
}

impl Clone for PropertyName {
    fn clone(&self) -> (r: Self)
        ensures
            r == *self,
    {
        PropertyName { id: self.id.clone() }
    }
}

impl PartialEq for PropertyName {
    fn eq(&self, other: &Self) -> (r: bool) {
        self.id == other.id
    }
}

impl vstd::std_specs::cmp::PartialEqSpecImpl for PropertyName {
    open spec fn obeys_eq_spec() -> bool {
        true
    }

    open spec fn eq_spec(&self, other: &Self) -> bool {
        self@ == other@
    }
}

/// Mathematical value of a `QualifiedName`.
pub struct QnView {
    /// Segments of the namespace.
    pub namespace: Seq<Seq<char>>,
    /// Terminal identifier.
    pub name: Seq<char>,
}

/// A globally unique type reference: namespace plus terminal name.
#[derive(Debug)]
pub struct QualifiedName {
    /// Namespace the type lives in.
    pub namespace: Namespace,
    /// Name of the type inside its namespace.
    pub name: SimpleIdentifier,
}

impl View for QualifiedName {
    type V = QnView;

    open spec fn view(&self) -> QnView {
        QnView { namespace: self.namespace@, name: self.name@ }
    }
}

impl QualifiedName {
    /// Both parts are well formed.
    pub open spec fn wf(&self) -> bool {
        &&& self.namespace.wf()
        &&& self.name.wf()
    }

    /// Build a qualified name from its two parts.
    pub fn new(namespace: Namespace, name: SimpleIdentifier) -> (r: QualifiedName)
        ensures
            r@.namespace == namespace@,
            r@.name == name@,
    {
        QualifiedName { namespace, name }
    }
}

impl QualifiedName {
    /// Parse a dotted qualified name: at least two identifier fields,
    /// all but the last forming the namespace.
    #[verifier::loop_isolation(false)]
    pub fn parse(s: &str) -> (r: Result<QualifiedName, IdentifierError>)
        ensures
            r is Ok <==> crate::text::split_on(s@, '.').len() >= 2 && (forall|i: int|
                0 <= i < crate::text::split_on(s@, '.').len() ==> is_simple_identifier(
                    #[trigger] crate::text::split_on(s@, '.')[i],
                )),
            r matches Ok(qn) ==> qn@.namespace == crate::text::split_on(s@, '.').drop_last()
                && qn@.name == crate::text::split_on(s@, '.').last() && qn.wf(),
    {
        let ghost fields = crate::text::split_on(s@, '.');
        let mut parts = crate::text::split_str(s, '.');
        let name_str = match parts.pop() {
            Some(f) => f,
            None => {
                proof {
                    assert(false);
                }
                return Err(IdentifierError::NotAnIdentifier);
            },
        };
        proof {
            assert(parts@.map_values(|f: String| f@) =~= fields.drop_last());
        }
        if parts.len() == 0 {
            return Err(IdentifierError::NotAnIdentifier);
        }
        let name = match SimpleIdentifier::parse(name_str.as_str()) {
            Ok(id) => id,
            Err(e) => {
                proof {
                    assert(!is_simple_identifier(fields[fields.len() - 1]));
                }
                return Err(e);
            },
        };
        let mut segments: Vec<SimpleIdentifier> = Vec::new();
        let mut i: usize = 0;
        while i < parts.len()
            invariant
                0 <= i <= parts@.len(),
                segments@.len() == i,
                forall|j: int| 0 <= j < i ==> is_simple_identifier(#[trigger] fields[j]),
                forall|j: int| 0 <= j < i ==> #[trigger] segments@[j]@ == fields[j],
            decreases parts@.len() - i,
        {
            match SimpleIdentifier::parse(parts[i].as_str()) {
                Ok(id) => {
                    proof {
                        assert(parts@.map_values(|f: String| f@)[i as int] == parts@[i as int]@);
                    }
                    segments.push(id);
                },
                Err(e) => {
                    proof {
                        assert(parts@.map_values(|f: String| f@)[i as int] == parts@[i as int]@);
                        assert(!is_simple_identifier(fields[i as int]));
                    }
                    return Err(e);
                },
            }
            i += 1;
        }
        let namespace = Namespace { segments };
        proof {
            assert(namespace@ =~= fields.drop_last());
            assert(forall|j: int|
                0 <= j < fields.len() ==> is_simple_identifier(#[trigger] fields[j]));
        }
        Ok(QualifiedName { namespace, name })
    }
}

impl Clone for QualifiedName {
    fn clone(&self) -> (r: Self)
        ensures
            r@ == self@,
    {
        QualifiedName { namespace: self.namespace.clone(), name: self.name.clone() }
    }
}

impl PartialEq for QualifiedName {
    fn eq(&self, other: &Self) -> (r: bool) {
        self.name == other.name && self.namespace == other.namespace
    }
}

impl vstd::std_specs::cmp::PartialEqSpecImpl for QualifiedName {
    open spec fn obeys_eq_spec() -> bool {
        true
    }

    open spec fn eq_spec(&self, other: &Self) -> bool {
        self@ == other@
    }
}

} // verus!
