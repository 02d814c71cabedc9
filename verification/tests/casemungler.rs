//! Tests of the identifier case converter.

use csdl_compiler::casemungler::to_camel;
use csdl_compiler::casemungler::to_snake;

#[test]
fn test_casemungler_as_string() {
    let owned_string = String::from("CamelCase");
    assert_eq!(to_snake(owned_string.as_str()), "camel_case");

    let owned_string = String::from("Camel_Case");
    assert_eq!(to_camel(owned_string.as_str()), "CamelCase");
}

#[test]
fn test_casemungler_as_str() {
    let s = "CamelCase";
    assert_eq!(to_snake(s), "camel_case");

    let s = "Camel_Case";
    assert_eq!(to_camel(s), "CamelCase");
}

#[test]
fn test_casemungler_to_snake() {
    assert_eq!(to_snake(""), "");
    assert_eq!(to_snake("_"), "_");
    assert_eq!(to_snake("___"), "___");
    assert_eq!(to_snake("F"), "f");
    assert_eq!(to_snake("PF"), "pf");
    assert_eq!(to_snake("pF"), "p_f");
    assert_eq!(to_snake("_SomeThing"), "_some_thing");
    assert_eq!(to_snake("_SomeBadMojo"), "_some_bad_mojo");
    assert_eq!(to_snake("_Some_Bad_Mojo"), "_some_bad_mojo");
    assert_eq!(to_snake("NVMe"), "nvme");
    assert_eq!(to_snake("NVME"), "nvme");
    assert_eq!(to_snake("nVME"), "n_vme");
    assert_eq!(to_snake("nVMEfoobar"), "n_vm_efoobar");
    assert_eq!(to_snake("nVMEFoobar"), "n_vme_foobar");
    assert_eq!(to_snake("PCIe_Functions"), "pcie_functions");
    assert_eq!(to_snake("PCIeFunctions"), "pcie_functions");
    assert_eq!(to_snake("PCIEFunctions"), "pcie_functions");
    assert_eq!(to_snake("PFFunctionNumber"), "pf_function_number");
    assert_eq!(to_snake("PhysFunctionNumber"), "phys_function_number");
    assert_eq!(to_snake("physFunctionNumber"), "phys_function_number");
    assert_eq!(to_snake("FOO_BAR"), "foo_bar");
    assert_eq!(to_snake("Foo_Bar"), "foo_bar");
    assert_eq!(to_snake("Foo_bar"), "foo_bar");
    assert_eq!(to_snake("FooBar"), "foo_bar");
    assert_eq!(to_snake("Foobar"), "foobar");
}

#[test]
fn test_casemungler_to_camel() {
    assert_eq!(to_camel(""), "");
    assert_eq!(to_camel("_"), "");
    assert_eq!(to_camel("___"), "");
    assert_eq!(to_camel("F"), "F");
    assert_eq!(to_camel("PF"), "Pf");
    assert_eq!(to_camel("pF"), "PF");
    assert_eq!(to_camel("_SomeThing"), "SomeThing");
    assert_eq!(to_camel("_SomeThingIsNotRight"), "SomeThingIsNotRight");
    assert_eq!(to_camel("_Some_Thing_Is_Not_Right"), "SomeThingIsNotRight");
    assert_eq!(to_camel("NVMe"), "Nvme");
    assert_eq!(to_camel("NVME"), "Nvme");
    assert_eq!(to_camel("nVME"), "NVme");
    assert_eq!(to_camel("nVMEfoobar"), "NVmEfoobar");
    assert_eq!(to_camel("nVMEFoobar"), "NVmeFoobar");
    assert_eq!(to_camel("PCIe_Functions"), "PcieFunctions");
    assert_eq!(to_camel("PCIeFunctions"), "PcieFunctions");
    assert_eq!(to_camel("PCIEFunctions"), "PcieFunctions");
    assert_eq!(to_camel("PFFunctionNumber"), "PfFunctionNumber");
    assert_eq!(to_camel("PhysicalFunctionNumber"), "PhysicalFunctionNumber");
    assert_eq!(to_camel("physicalFunctionNumber"), "PhysicalFunctionNumber");
    assert_eq!(to_camel("FOO_BAR"), "FooBar");
    assert_eq!(to_camel("Foo_Bar"), "FooBar");
    assert_eq!(to_camel("Foo_bar"), "FooBar");
    assert_eq!(to_camel("FooBar"), "FooBar");
    assert_eq!(to_camel("Foobar"), "Foobar");
}
