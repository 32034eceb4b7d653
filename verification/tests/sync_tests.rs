use ticket_store::outro;

#[test]
fn test_outro() {
    assert_eq!(outro(), "I have a good understanding of Send and Sync!");
}
