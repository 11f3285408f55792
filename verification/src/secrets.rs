//! The secret vault's fixed allowlist: only these named credentials may
//! be read, written or deleted. The vault itself is an external
//! collaborator; what the library owns is the allowlist and the
//! rejection of every other key.

use vstd::prelude::*;

verus! {

/// The fixed allowlist of credential names, in its published order.
pub open spec fn spec_supported_secret_keys() -> Seq<Seq<char>> {
    seq![
        "GROQ_API_KEY"@,
        "OPENROUTER_API_KEY"@,
        "FRED_API_KEY"@,
        "EIA_API_KEY"@,
        "CLOUDFLARE_API_TOKEN"@,
        "ACLED_ACCESS_TOKEN"@,
        "WINGBITS_API_KEY"@,
        "WS_RELAY_URL"@,
        "VITE_OPENSKY_RELAY_URL"@,
        "OPENSKY_CLIENT_ID"@,
        "OPENSKY_CLIENT_SECRET"@,
        "AISSTREAM_API_KEY"@,
        "VITE_WS_RELAY_URL"@,
    ]
}

/// Whether a key stands on the allowlist.
pub open spec fn spec_is_supported_key(key: Seq<char>) -> bool {
    spec_supported_secret_keys().contains(key)
}

/// The error reported for a key outside the allowlist.
pub open spec fn spec_unsupported_key_message(key: Seq<char>) -> Seq<char> {
    "Unsupported secret key: "@ + key
}

/// The allowlist, in order, for display to the settings surface.
pub fn list_supported_secret_keys() -> (r: Vec<String>)
    ensures
        r@.len() == spec_supported_secret_keys().len(),
        forall|i: int|
            0 <= i < r@.len() ==> #[trigger] r@[i]@ == spec_supported_secret_keys()[i],
{
    let mut out: Vec<String> = Vec::new();
    out.push(String::from_str("GROQ_API_KEY"));
    out.push(String::from_str("OPENROUTER_API_KEY"));
    out.push(String::from_str("FRED_API_KEY"));
    out.push(String::from_str("EIA_API_KEY"));
    out.push(String::from_str("CLOUDFLARE_API_TOKEN"));
    out.push(String::from_str("ACLED_ACCESS_TOKEN"));
    out.push(String::from_str("WINGBITS_API_KEY"));
    out.push(String::from_str("WS_RELAY_URL"));
    out.push(String::from_str("VITE_OPENSKY_RELAY_URL"));
    out.push(String::from_str("OPENSKY_CLIENT_ID"));
    out.push(String::from_str("OPENSKY_CLIENT_SECRET"));
    out.push(String::from_str("AISSTREAM_API_KEY"));
    out.push(String::from_str("VITE_WS_RELAY_URL"));
    out
}

/// Whether this key may name a credential in the vault.
pub fn is_supported_secret_key(key: &str) -> (r: bool)
    ensures
        r == spec_is_supported_key(key@),
{
    let keys = list_supported_secret_keys();
    let owned = key.to_owned();
    let n = keys.len();
    let mut i: usize = 0;
    while i < n
        invariant
            i <= n,
            n == keys@.len(),
            n == spec_supported_secret_keys().len(),
            owned@ == key@,
            forall|j: int|
                0 <= j < n ==> #[trigger] keys@[j]@ == spec_supported_secret_keys()[j],
            forall|j: int| 0 <= j < i ==> spec_supported_secret_keys()[j] != key@,
        decreases n - i,
    {
        if keys[i] == owned {
            return true;
        }
        i = i + 1;
    }
    proof {
        assert(forall|j: int|
            0 <= j < spec_supported_secret_keys().len()
                ==> spec_supported_secret_keys()[j] != key@);
    }
    false
}

/// Admits a key to the vault or rejects it: exactly the keys of the
/// allowlist are admitted, and a rejected key is named in the error.
pub fn validate_secret_key(key: &str) -> (r: Result<(), String>)
    ensures
        r is Ok <==> spec_is_supported_key(key@),
        r matches Err(message) ==> message@ == spec_unsupported_key_message(key@),
{
    if is_supported_secret_key(key) {
        Ok(())
    } else {
        let mut message = String::from_str("Unsupported secret key: ");
        message.append(key);
        Err(message)
    }
}

} // verus!
