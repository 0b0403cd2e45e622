use jilar::Label;

#[test]
fn label_create() {
    let label = Label::new("test label");
    assert_eq!(label.text(), "test label");
}

#[test]
fn label_empty_text() {
    let label = Label::new("");
    assert_eq!(label.text(), "");
}
