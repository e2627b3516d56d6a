//! Who may call the node's RPC service.
use vstd::prelude::*;

verus! {

/// A request of the RPC framework, `tonic::Request`.
#[verifier::external_type_specification]
#[verifier::external_body]
#[verifier::reject_recursive_types(T)]
pub struct ExRequest<T>(tonic::Request<T>);

/// What the metadata of a request holds: for each key, in lower case, its values
/// in the order in which they were added, at least one.
pub uninterp spec fn request_metadata(request: tonic::Request<()>) -> Map<Seq<char>, Seq<Seq<u8>>>;

/// Whether `key` is made of lower-case ASCII letters.
pub open spec fn is_plain_key(key: Seq<char>) -> bool {
    key.len() > 0 && forall|i: int| 0 <= i < key.len() ==> 'a' <= #[trigger] key[i] <= 'z'
}

/// Whether a metadata value may hold `byte`: any but the control characters, of
/// which only the tab is allowed.
pub open spec fn is_value_byte(byte: u8) -> bool {
    byte == 9 || (byte >= 32 && byte != 127)
}

/// Calls `tonic::metadata::MetadataMap::get` on the metadata of a request: the
/// first value of `key`, if the metadata holds any.
#[verifier::external_body]
fn first_metadata_value(request: &tonic::Request<()>, key: &str) -> (r: Option<Vec<u8>>)
    requires
        is_plain_key(key@),
    ensures
        match r {
            Some(value) => {
                &&& request_metadata(*request).contains_key(key@)
                &&& request_metadata(*request)[key@].len() > 0
                &&& value@ == request_metadata(*request)[key@][0]
            },
            None => !request_metadata(*request).contains_key(key@),
        },
{
    request.metadata().get(key).map(|value| value.as_encoded_bytes().to_vec())
}

/// Parses a `tonic::metadata::MetadataValue<Ascii>` from `text`: its UTF-8 bytes,
/// unless one of them may not stand in a value.
#[verifier::external_body]
fn metadata_value(text: &str) -> (r: Option<Vec<u8>>)
    ensures
        match r {
            Some(value) => {
                &&& value@ == vstd::utf8::encode_utf8(text@)
                &&& forall|i: int| 0 <= i < value@.len() ==> is_value_byte(#[trigger] value@[i])
            },
            None => exists|i: int|
                0 <= i < vstd::utf8::encode_utf8(text@).len() && !is_value_byte(
                    #[trigger] vstd::utf8::encode_utf8(text@)[i],
                ),
        },
{
    let value = text.parse::<tonic::metadata::MetadataValue<tonic::metadata::Ascii>>().ok()?;
    Some(value.as_encoded_bytes().to_vec())
}

/// The answer to a call that is turned down: a gRPC status code and a message.
#[derive(Debug)]
pub struct RpcStatus {
    pub code: i32,
    pub message: String,
}

/// Calls `tonic::Status::unauthenticated`: a status with the gRPC code
/// `UNAUTHENTICATED`, which is 16, and with `message`.
#[verifier::external_body]
fn unauthenticated(message: &str) -> (r: RpcStatus)
    ensures
        r.code == 16,
        r.message@ == message@,
{
    let status = tonic::Status::unauthenticated(message);
    RpcStatus { code: status.code() as i32, message: status.message().to_owned() }
}

/// The token that the nodes of a cluster share.
pub open spec fn rpc_token() -> Seq<u8> {
    vstd::utf8::encode_utf8("rustfs rpc"@)
}

/// Whether metadata authorizes a call: its first `authorization` is the token.
pub open spec fn is_authorized(metadata: Map<Seq<char>, Seq<Seq<u8>>>) -> bool {
    &&& metadata.contains_key("authorization"@)
    &&& metadata["authorization"@][0] == rpc_token()
}

/// Whether two byte strings are the same.
fn same_bytes(a: &Vec<u8>, b: &Vec<u8>) -> (r: bool)
    ensures
        r == (a@ == b@),
{
    if a.len() != b.len() {
        return false;
    }
    let mut i: usize = 0;
    while i < a.len()
        invariant
            i <= a@.len() == b@.len(),
            forall|j: int| 0 <= j < i ==> a@[j] == b@[j],
        decreases a@.len() - i,
    {
        if a[i] != b[i] {
            return false;
        }
        i = i + 1;
    }
    assert(a@ == b@);
    true
}

/// Whether the value of a call's `authorization`, if it has one, is the token.
pub fn is_valid_token(value: &Option<Vec<u8>>) -> (r: bool)
    ensures
        r == (value matches Some(v) && v@ == rpc_token()),
{
    proof {
        reveal_strlit("rustfs rpc");
        vstd::utf8::is_ascii_chars_encode_utf8("rustfs rpc"@);
    }
    let token = metadata_value("rustfs rpc").unwrap();
    match value {
        Some(v) => same_bytes(&token, v),
        None => false,
    }
}

/// Lets a call through, unchanged, if it bears the token; turns it down as
/// unauthenticated if not.
pub fn check_auth(request: tonic::Request<()>) -> (r: Result<tonic::Request<()>, RpcStatus>)
    ensures
        match r {
            Ok(passed) => is_authorized(request_metadata(request)) && passed == request,
            Err(status) => {
                &&& !is_authorized(request_metadata(request))
                &&& status.code == 16
                &&& status.message@ == "No valid auth token"@
            },
        },
{
    proof {
        reveal_strlit("authorization");
    }
    let value = first_metadata_value(&request, "authorization");
    if is_valid_token(&value) {
        Ok(request)
    } else {
        Err(unauthenticated("No valid auth token"))
    }
}

/// A call is let through for the first value of its `authorization` alone: it is the
/// text `rustfs rpc`, byte for byte. What else its metadata holds does not matter.
pub proof fn law_first_authorization_decides(metadata: Map<Seq<char>, Seq<Seq<u8>>>)
    ensures
        is_authorized(metadata) <==> metadata.contains_key("authorization"@)
            && metadata["authorization"@][0] == seq![
            0x72u8,
            0x75u8,
            0x73u8,
            0x74u8,
            0x66u8,
            0x73u8,
            0x20u8,
            0x72u8,
            0x70u8,
            0x63u8,
        ],
{
    reveal_strlit("rustfs rpc");
    vstd::utf8::is_ascii_chars_encode_utf8("rustfs rpc"@);
    assert(rpc_token() == seq![
        0x72u8,
        0x75u8,
        0x73u8,
        0x74u8,
        0x66u8,
        0x73u8,
        0x20u8,
        0x72u8,
        0x70u8,
        0x63u8,
    ]);
}

/// Two calls whose `authorization` begins alike are both let through or both turned
/// down.
pub proof fn law_other_metadata_does_not_matter(
    first: Map<Seq<char>, Seq<Seq<u8>>>,
    second: Map<Seq<char>, Seq<Seq<u8>>>,
)
    requires
        first.contains_key("authorization"@) == second.contains_key("authorization"@),
        first["authorization"@][0] == second["authorization"@][0],
    ensures
        is_authorized(first) == is_authorized(second),
{
}

} // verus!
