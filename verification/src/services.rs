//! The services the crate can work with regarding the steam id information.

use vstd::prelude::*;
use vstd::string::StrSliceExecFns;
use vstd::string::StringExecFns;

use crate::decimal::append_dec;
use crate::decimal::dec_digits;
use crate::error::Error;
use crate::id::Id;
use crate::id::OnlineState;
use crate::id::id64_value;
use crate::id::id_to_id64_err;

verus! {

/// Steam profile as the steamid.co lookup service reports it. The transport
/// layer that fills it from the wire lives outside this crate; here it is a
/// plain value.
#[derive(Debug, Clone)]
pub struct SteamCoProfile {
    /// The steam id of this profile.
    pub steam_id: Id,
    /// The name of the profile in steam.
    pub name: String,
    /// The date the profile has been registered since.
    pub member_since: String,
    /// Current online status of the player.
    pub online_state: OnlineState,
    /// Whether this profile has been banned by VAC or not.
    pub vac_banned: bool,
    /// Current state message of the profile.
    pub state_message: String,
}

/// Creates a URL which can be used to perform an http request for getting
/// steam account information by steam id: the lookup endpoint followed by
/// the decimal digits of the packed id.
pub fn get_steamco_profile_url(id: &Id) -> (r: Result<String, Error>)
    ensures
        r matches Ok(u) <==> id64_value(*id) is Some,
        r matches Ok(u) ==> (id64_value(*id) matches Some(p) && u@
            == "http://steamid.co/php/api.php?action=steamID64&id="@ + dec_digits(p as nat)),
        r matches Err(e) ==> id_to_id64_err(*id, e),
{
    let packed = match id.id64() {
        Ok(n) => n,
        Err(e) => {
            return Err(e);
        },
    };
    let mut out = String::from_str("http://steamid.co/php/api.php?action=steamID64&id=");
    append_dec(packed.0, &mut out);
    Ok(out)
}

/// True when two strings hold the same characters.
fn str_eq_chars(a: &str, b: &str) -> (r: bool)
    ensures
        r == (a@ == b@),
{
    let n = a.unicode_len();
    if n != b.unicode_len() {
        return false;
    }
    let mut i: usize = 0;
    while i < n
        invariant
            0 <= i <= n,
            n == a@.len(),
            n == b@.len(),
            forall|k: int| 0 <= k < i ==> a@[k] == b@[k],
        decreases n - i,
    {
        if a.get_char(i) != b.get_char(i) {
            return false;
        }
        i = i + 1;
    }
    proof {
        assert(a@ =~= b@);
    }
    true
}

/// What a textual truth flag means: `"true"` and `"1"` mean true, `"false"`
/// and `"0"` mean false, anything else means nothing.
pub open spec fn spec_bool_text(v: Seq<char>) -> Option<bool> {
    if v == "true"@ || v == "1"@ {
        Some(true)
    } else if v == "false"@ || v == "0"@ {
        Some(false)
    } else {
        None
    }
}

/// Reads a truth flag given as text, the way the profile record reports its
/// ban flag: `"true"`/`"1"` and `"false"`/`"0"` are accepted.
pub fn parse_bool_text(s: &str) -> (r: Option<bool>)
    ensures
        r == spec_bool_text(s@),
{
    if str_eq_chars(s, "true") || str_eq_chars(s, "1") {
        Some(true)
    } else if str_eq_chars(s, "false") || str_eq_chars(s, "0") {
        Some(false)
    } else {
        None
    }
}

} // verus!
