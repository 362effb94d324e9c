use vstd::prelude::*;

verus! {

/// How many random bytes a generated signing secret holds.
pub const SECRET_BYTES: usize = 32;

/// The OAuth client settings of the identity provider.
pub struct TwitchConfig {
    pub client_id: String,
    pub client_secret: String,
    pub redirect_uri: String,
}

impl Default for TwitchConfig {
    fn default() -> (r: TwitchConfig)
        ensures
            r.client_id@.len() == 0,
            r.client_secret@.len() == 0,
            r.redirect_uri@.len() == 0,
    {
        TwitchConfig { client_id: String::new(), client_secret: String::new(), redirect_uri: String::new() }
    }
}

/// The lowercase hexadecimal digit for `n`, below sixteen.
pub open spec fn hex_digit(n: int) -> char {
    seq!['0', '1', '2', '3', '4', '5', '6', '7', '8', '9', 'a', 'b', 'c', 'd', 'e', 'f'][n]
}

/// Two lowercase hexadecimal digits per byte, the high half first.
pub open spec fn hex_of(b: Seq<u8>) -> Seq<char>
    decreases b.len(),
{
    if b.len() == 0 {
        Seq::empty()
    } else {
        seq![hex_digit(b[0] as int / 16), hex_digit(b[0] as int % 16)] + hex_of(b.drop_first())
    }
}

pub proof fn lemma_hex_len(b: Seq<u8>)
    ensures
        hex_of(b).len() == 2 * b.len(),
    decreases b.len(),
{
    if b.len() > 0 {
        lemma_hex_len(b.drop_first());
    }
}

/// Relies on hex::encode: two lowercase digits per byte, high half first.
#[verifier::external_body]
fn encode_hex(bytes: &[u8]) -> (r: String)
    ensures
        r@ == hex_of(bytes@),
{
    hex::encode(bytes)
}

/// Relies on rand::thread_rng and Rng::fill: `n` bytes drawn from the
/// thread's generator.
#[verifier::external_body]
fn random_bytes(n: usize) -> (r: Vec<u8>)
    ensures
        r@.len() == n,
{
    let mut bytes = vec![0u8; n];
    rand::Rng::fill(&mut rand::thread_rng(), &mut bytes[..]);
    bytes
}

/// A fresh signing secret: random bytes written as lowercase hexadecimal.
pub fn random_secret() -> (r: String)
    ensures
        r@.len() == 2 * SECRET_BYTES,
        exists|b: Seq<u8>| b.len() == SECRET_BYTES && r@ == hex_of(b),
{
    let bytes = random_bytes(SECRET_BYTES);
    let r = encode_hex(bytes.as_slice());
    proof {
        lemma_hex_len(bytes@);
    }
    r
}

} // verus!
