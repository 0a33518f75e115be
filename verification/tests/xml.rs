use humility::errors::Error;
use humility::xmlwrap::{feature_includes, parse_feature_regs};

#[test]
fn includes_from_top_level_document() {
    let xml = "<target><xi:include href=\"riscv-cpu.xml\"/>\
               <xi:include href=\"riscv-csr.xml\"/></target>";
    let includes = feature_includes(xml);
    assert_eq!(includes, vec!["riscv-cpu.xml", "riscv-csr.xml"]);
}

#[test]
fn includes_ignore_other_attributes() {
    let xml = "<target version=\"1.0\"><feature name=\"core\"/></target>";
    assert!(feature_includes(xml).is_empty());
}

#[test]
fn register_entries_from_feature_document() {
    let xml = "<feature name=\"org.gnu.gdb.riscv.csr\">\
               <reg name=\"mstatus\" bitsize=\"32\" regnum=\"833\"/>\
               <reg name=\"mcause\" bitsize=\"32\" regnum=\"898\"/>\
               <other thing=\"1\"/>\
               </feature>";
    let entries = parse_feature_regs(xml).unwrap();
    assert_eq!(
        entries,
        vec![
            (String::from("mstatus"), 833),
            (String::from("mcause"), 898)
        ]
    );
}

#[test]
fn register_entries_skip_odd_shapes() {
    // A reg element without exactly three attributes, or whose third
    // attribute is not the register number, contributes nothing.
    let xml = "<feature><reg name=\"pc\" bitsize=\"32\"/>\
               <reg name=\"sp\" bitsize=\"32\" type=\"data_ptr\"/></feature>";
    let entries = parse_feature_regs(xml).unwrap();
    assert!(entries.is_empty());
}

#[test]
fn register_entries_reject_bad_numbers() {
    let xml = "<feature><reg name=\"pc\" bitsize=\"32\" regnum=\"many\"/></feature>";
    assert_eq!(parse_feature_regs(xml), Err(Error::BadInteger));
}

#[test]
fn malformed_document_rejected() {
    assert_eq!(parse_feature_regs("<feature"), Err(Error::BadResponse));
}
