use netstack::error::{code_text, Error, ErrorKind};

#[test]
fn codes_are_decimal() {
    assert_eq!(code_text(0), "0");
    assert_eq!(code_text(7), "7");
    assert_eq!(code_text(-11), "-11");
    assert_eq!(code_text(100), "100");
    assert_eq!(code_text(127), "127");
    assert_eq!(code_text(-128), "-128");
}

#[test]
fn errors_carry_kind_and_text() {
    let error = Error::with_code(ErrorKind::Other, "listen TCP failed: ", -8);
    assert_eq!(error.kind, ErrorKind::Other);
    assert_eq!(error.message, "listen TCP failed: -8");
    let error = Error::new(ErrorKind::WouldBlock, "");
    assert_eq!(error.kind, ErrorKind::WouldBlock);
    assert_eq!(error.message, "");
}
