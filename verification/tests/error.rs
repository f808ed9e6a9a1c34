use sloggers::error::ErrorKind;

#[test]
fn error_kinds_are_told_apart() {
    let kinds = [
        ErrorKind::Invalid,
        ErrorKind::ServerLookup,
        ErrorKind::ServerConnect,
        ErrorKind::Other,
    ];
    for (i, a) in kinds.iter().enumerate() {
        for (j, b) in kinds.iter().enumerate() {
            assert_eq!(a == b, i == j);
        }
    }
    assert_eq!(format!("{:?}", ErrorKind::ServerConnect), "ServerConnect");
}
