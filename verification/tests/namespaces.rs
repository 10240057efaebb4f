use en16931::cii;
use en16931::ubl;
use en16931::{Abbreviations, Cii, Context, Error, Format, Path, Segment, Step, Ubl};

#[test]
fn resolves_an_abbreviation_of_the_document() {
    let mut abbreviations = Abbreviations::<ubl::Namespace>::default_abbreviations();

    abbreviations
        .declare("", ubl::Namespace::Inv)
        .expect("a free abbreviation");
    abbreviations
        .declare("basic", ubl::Namespace::Cbc)
        .expect("a free abbreviation");

    assert_eq!(abbreviations.resolve(""), Some(ubl::Namespace::Inv));
    assert_eq!(abbreviations.resolve("basic"), Some(ubl::Namespace::Cbc));
}

#[test]
fn keeps_an_abbreviation_the_document_repeats() {
    let mut abbreviations = Abbreviations::<ubl::Namespace>::default_abbreviations();

    abbreviations
        .declare("cbc", ubl::Namespace::Cbc)
        .expect("the namespace the rule sets bind");

    assert_eq!(abbreviations.resolve("cbc"), Some(ubl::Namespace::Cbc));
}

#[test]
fn rejects_an_abbreviation_of_two_namespaces() {
    let mut abbreviations = Abbreviations::<ubl::Namespace>::default_abbreviations();

    let outcome = abbreviations.declare("cbc", ubl::Namespace::Cac);

    assert!(matches!(outcome, Err(Error::AmbiguousAbbreviation(_))));
}

#[test]
fn resolves_no_abbreviation_of_an_unknown_name() {
    assert_eq!(
        Abbreviations::<ubl::Namespace>::default_abbreviations().resolve("xsi"),
        None
    );
}

#[test]
fn ubl_names_its_root_namespace() {
    assert_eq!(Ubl::root_namespace(), ubl::Namespace::Inv);
}

#[test]
fn ubl_abbreviates_each_namespace() {
    assert_eq!(ubl::Namespace::Inv.to_string(), "INV");
    assert_eq!(ubl::Namespace::Cac.to_string(), "CAC");
    assert_eq!(ubl::Namespace::Cbc.to_string(), "CBC");
}

#[test]
fn ubl_resolves_an_abbreviation_of_a_rule_set() {
    let abbreviations = Abbreviations::<ubl::Namespace>::default_abbreviations();

    assert_eq!(abbreviations.resolve("ubl"), Some(ubl::Namespace::Inv));
    assert_eq!(abbreviations.resolve("cac"), Some(ubl::Namespace::Cac));
    assert_eq!(abbreviations.resolve("cbc"), Some(ubl::Namespace::Cbc));
    assert_eq!(abbreviations.resolve("rsm"), None);
}

#[test]
fn cii_names_its_root_namespace() {
    assert_eq!(Cii::root_namespace(), cii::Namespace::Rsm);
}

#[test]
fn cii_abbreviates_each_namespace() {
    assert_eq!(cii::Namespace::Rsm.to_string(), "RSM");
    assert_eq!(cii::Namespace::Ram.to_string(), "RAM");
    assert_eq!(cii::Namespace::Udt.to_string(), "UDT");
    assert_eq!(cii::Namespace::Qdt.to_string(), "QDT");
}

#[test]
fn cii_resolves_an_abbreviation_of_a_rule_set() {
    let abbreviations = Abbreviations::<cii::Namespace>::default_abbreviations();

    assert_eq!(abbreviations.resolve("rsm"), Some(cii::Namespace::Rsm));
    assert_eq!(abbreviations.resolve("ram"), Some(cii::Namespace::Ram));
    assert_eq!(abbreviations.resolve("udt"), Some(cii::Namespace::Udt));
    assert_eq!(abbreviations.resolve("qdt"), Some(cii::Namespace::Qdt));
    assert_eq!(abbreviations.resolve("cac"), None);
}

#[test]
fn names_the_root_element_of_each_binding() {
    assert_eq!(Ubl::root_element(), "Invoice");
    assert_eq!(Cii::root_element(), "CrossIndustryInvoice");
}

fn segment(field: &'static str, index: Option<usize>) -> Segment {
    Segment { field, index }
}

#[test]
fn renders_the_segments_through_dots() {
    let context = Context {
        segments: vec![
            segment("lines", Some(2)),
            segment("item", None),
            segment("name", None),
        ],
    };

    assert_eq!(context.to_string(), "lines[2].item.name");
}

#[test]
fn renders_the_root_as_an_empty_string() {
    let context = Context {
        segments: Vec::new(),
    };

    assert_eq!(context.to_string(), "");
}

fn step<N: en16931::Namespace>(namespace: N, name: &str, index: usize) -> Step<N> {
    Step {
        namespace,
        name: name.to_owned(),
        index,
    }
}

#[test]
fn renders_a_ubl_path_in_record_form() {
    let path = Path {
        steps: vec![
            step(ubl::Namespace::Inv, "Invoice", 1),
            step(ubl::Namespace::Cac, "InvoiceLine", 2),
            step(ubl::Namespace::Cbc, "ID", 1),
        ],
    };

    assert_eq!(
        path.to_string(),
        "/Q{INV}Invoice[1]/Q{CAC}InvoiceLine[2]/Q{CBC}ID[1]"
    );
}

#[test]
fn renders_a_cii_path_in_record_form() {
    let path = Path {
        steps: vec![
            step(cii::Namespace::Rsm, "CrossIndustryInvoice", 1),
            step(cii::Namespace::Rsm, "SupplyChainTradeTransaction", 1),
            step(cii::Namespace::Ram, "IncludedSupplyChainTradeLineItem", 2),
            step(cii::Namespace::Ram, "AssociatedDocumentLineDocument", 1),
            step(cii::Namespace::Ram, "LineID", 1),
        ],
    };

    assert_eq!(
        path.to_string(),
        "/Q{RSM}CrossIndustryInvoice[1]/Q{RSM}SupplyChainTradeTransaction[1]/Q{RAM}IncludedSupplyChainTradeLineItem[2]/Q{RAM}AssociatedDocumentLineDocument[1]/Q{RAM}LineID[1]"
    );
}

#[test]
fn binds_a_repeated_abbreviation_to_the_namespace_listed_last() {
    let table = Abbreviations::from_pairs(&vec![
        ("a", ubl::Namespace::Cbc),
        ("b", ubl::Namespace::Cac),
        ("a", ubl::Namespace::Inv),
    ]);

    assert_eq!(table.resolve("a"), Some(ubl::Namespace::Inv));
    assert_eq!(table.resolve("b"), Some(ubl::Namespace::Cac));
    assert_eq!(table.resolve("c"), None);
}
