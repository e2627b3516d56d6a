use rustfs::auth::{check_auth, is_valid_token};
use tonic::metadata::{Ascii, MetadataValue};
use tonic::Request;

fn request(tokens: &[&[u8]]) -> Request<()> {
    let mut request = Request::new(());
    for token in tokens {
        let value: MetadataValue<Ascii> = MetadataValue::try_from(*token).unwrap();
        request.metadata_mut().append("authorization", value);
    }
    request
}

fn assert_refused(request: Request<()>) {
    let status = check_auth(request).unwrap_err();
    assert_eq!(status.code, tonic::Code::Unauthenticated as i32);
    assert_eq!(status.code, 16);
    assert_eq!(status.message, "No valid auth token");
}

#[test]
fn token_lets_a_call_through_unchanged() {
    let mut call = request(&[b"rustfs rpc"]);
    call.metadata_mut().insert("x-trace", "abc".parse().unwrap());
    let passed = check_auth(call).unwrap();
    assert_eq!(passed.metadata().get("authorization").unwrap(), "rustfs rpc");
    assert_eq!(passed.metadata().get("x-trace").unwrap(), "abc");
    assert_eq!(passed.metadata().len(), 2);
}

#[test]
fn call_without_token_is_refused() {
    assert_refused(request(&[]));
    let mut call = request(&[]);
    call.metadata_mut().insert("x-authorization", "rustfs rpc".parse().unwrap());
    assert_refused(call);
}

#[test]
fn call_with_another_token_is_refused() {
    let tokens: [&[u8]; 8] = [
        b"",
        b"rustfs",
        b"rustfs rp",
        b"rustfs rpc ",
        b" rustfs rpc",
        b"Rustfs rpc",
        b"rustfs\trpc",
        b"rustfs rp\xff",
    ];
    for token in tokens {
        assert_refused(request(&[token]));
    }
}

#[test]
fn first_of_several_tokens_counts() {
    assert!(check_auth(request(&[b"rustfs rpc", b"other"])).is_ok());
    assert_refused(request(&[b"other", b"rustfs rpc"]));
}

#[test]
fn token_is_compared_byte_by_byte() {
    assert!(is_valid_token(&Some(b"rustfs rpc".to_vec())));
    assert!(!is_valid_token(&Some(b"rustfs rpd".to_vec())));
    assert!(!is_valid_token(&Some(Vec::new())));
    assert!(!is_valid_token(&None));
}
