//! The keys that share records are stored under, and how they are read back.
use vstd::prelude::*;

use crate::data_type::names_view;
use crate::kv_api_key::KVApiKeyError;
use crate::kv_api_key::KeyErrorView;
use crate::kv_api_key::decode_id;
use crate::kv_api_key::decode_id_spec;
use crate::kv_api_key::escape;
use crate::kv_api_key::escaped;
use crate::kv_api_key::lemma_decimal_no_slash;
use crate::kv_api_key::lemma_escaped_no_slash;
use crate::kv_api_key::lemma_parse_decimal;
use crate::kv_api_key::lemma_split_on_len;
use crate::kv_api_key::lemma_split_on_segment;
use crate::kv_api_key::lemma_unescape_spec_escape;
use crate::kv_api_key::parse_u64;
use crate::kv_api_key::split_key;
use crate::kv_api_key::split_on;
use crate::kv_api_key::unescape_name;
use crate::kv_api_key::unescape_spec;
use crate::share::ShareAccountNameIdent;
use crate::share::ShareId;
use crate::share::ShareIdToName;
use crate::share::ShareNameIdent;
use crate::text::decimal;
use crate::text::push_decimal;
use crate::text::push_str;

verus! {

/// The prefix of the keys that generate ids.
pub const PREFIX_ID_GEN: &'static str = "__fd_id_gen";

/// The prefix of the keys of share names.
pub const PREFIX_SHARE: &'static str = "__fd_share";

/// The prefix of the keys of share ids.
pub const PREFIX_SHARE_ID: &'static str = "__fd_share_id";

/// The prefix of the keys from share ids to names.
pub const PREFIX_SHARE_ID_TO_NAME: &'static str = "__fd_share_id_to_name";

/// The prefix of the keys of share accounts.
pub const PREFIX_SHARE_ACCOUNT_ID: &'static str = "__fd_share_account_id";

/// The generator of share ids.
#[derive(Debug)]
pub struct ShareIdGen {}

impl ShareIdGen {
    /// The key of the share id generator: `__fd_id_gen/share_id`.
    pub fn to_key(&self) -> (r: String)
        ensures
            r@ == PREFIX_ID_GEN@ + "/share_id"@,
    {
        let mut s = String::new();
        push_str(&mut s, PREFIX_ID_GEN);
        push_str(&mut s, "/share_id");
        s
    }
}

/// The key of a share name: the prefix, the escaped tenant and the escaped
/// share name, joined by `/`.
pub open spec fn share_name_key(tenant: Seq<char>, share_name: Seq<char>) -> Seq<char> {
    PREFIX_SHARE@ + "/"@ + escaped(tenant) + "/"@ + escaped(share_name)
}

/// What a key of a share name reads as: its first segment must be the
/// prefix, and it must have three segments; the other two are unescaped to
/// the tenant and the share name.
pub open spec fn share_name_from_key(s: Seq<char>) -> Result<(Seq<char>, Seq<char>), KeyErrorView> {
    let segs = split_on(s, '/');
    if segs[0] != PREFIX_SHARE@ {
        Err(KeyErrorView::InvalidSegment(0, PREFIX_SHARE@, segs[0]))
    } else if segs.len() < 2 {
        Err(KeyErrorView::WrongNumberOfSegments(2, s))
    } else if segs.len() < 3 {
        Err(KeyErrorView::WrongNumberOfSegments(3, s))
    } else if segs.len() > 3 {
        Err(KeyErrorView::WrongNumberOfSegments(3, s))
    } else {
        match unescape_spec(segs[1]) {
            None => Err(KeyErrorView::FromUtf8Error),
            Some(tenant) => match unescape_spec(segs[2]) {
                None => Err(KeyErrorView::FromUtf8Error),
                Some(name) => Ok((tenant, name)),
            },
        }
    }
}

/// The key of a share id: the prefix and the id, joined by `/`.
pub open spec fn share_id_key(prefix: Seq<char>, id: u64) -> Seq<char> {
    prefix + "/"@ + decimal(id as nat)
}

/// What a key of a share id (under the given prefix) reads as: its first
/// segment must be the prefix, its second the id, and it must have two segments.
pub open spec fn share_id_from_key(prefix: Seq<char>, s: Seq<char>) -> Result<nat, KeyErrorView> {
    let segs = split_on(s, '/');
    if segs[0] != prefix {
        Err(KeyErrorView::InvalidSegment(0, prefix, segs[0]))
    } else if segs.len() < 2 {
        Err(KeyErrorView::WrongNumberOfSegments(2, s))
    } else {
        match decode_id_spec(segs[1]) {
            Err(e) => Err(e),
            Ok(id) => if segs.len() > 2 {
                Err(KeyErrorView::WrongNumberOfSegments(2, s))
            } else {
                Ok(id)
            },
        }
    }
}

/// The key of a share account: the prefix, the escaped account and the share
/// id, joined by `/`.
pub open spec fn share_account_key(account: Seq<char>, share_id: u64) -> Seq<char> {
    PREFIX_SHARE_ACCOUNT_ID@ + "/"@ + escaped(account) + "/"@ + decimal(share_id as nat)
}

/// What a key of a share account reads as: its first segment must be the
/// prefix, its third the share id, and it must have three segments; the
/// second is unescaped to the account.
pub open spec fn share_account_from_key(s: Seq<char>) -> Result<(Seq<char>, nat), KeyErrorView> {
    let segs = split_on(s, '/');
    if segs[0] != PREFIX_SHARE_ACCOUNT_ID@ {
        Err(KeyErrorView::InvalidSegment(0, PREFIX_SHARE_ACCOUNT_ID@, segs[0]))
    } else if segs.len() < 2 {
        Err(KeyErrorView::WrongNumberOfSegments(2, s))
    } else if segs.len() < 3 {
        Err(KeyErrorView::WrongNumberOfSegments(3, s))
    } else {
        match decode_id_spec(segs[2]) {
            Err(e) => Err(e),
            Ok(id) => if segs.len() > 3 {
                Err(KeyErrorView::WrongNumberOfSegments(3, s))
            } else {
                match unescape_spec(segs[1]) {
                    None => Err(KeyErrorView::FromUtf8Error),
                    Some(account) => Ok((account, id)),
                }
            },
        }
    }
}

/// The segments of a key, checked against the expected prefix.
fn key_segments(s: &str, prefix: &str) -> (r: Result<Vec<String>, KVApiKeyError>)
    ensures
        ({
            let segs = split_on(s@, '/');
            match r {
                Ok(v) => segs[0] == prefix@ && names_view(v@) == segs,
                Err(e) => segs[0] != prefix@ && e@ == KeyErrorView::InvalidSegment(0, prefix@, segs[0]),
            }
        }),
{
    let segs = split_key(s);
    proof {
        lemma_split_on_len(s@, '/');
        assert(names_view(segs@)[0] == segs@[0]@);
    }
    let p = String::from_str(prefix);
    if !(segs[0] == p) {
        return Err(KVApiKeyError::InvalidSegment { i: 0, expect: p, got: segs[0].clone() });
    }
    Ok(segs)
}

/// The error of a key with the wrong number of segments.
fn wrong_number(expect: usize, s: &str) -> (r: KVApiKeyError)
    ensures
        r@ == KeyErrorView::WrongNumberOfSegments(expect as nat, s@),
{
    KVApiKeyError::WrongNumberOfSegments { expect, got: String::from_str(s) }
}

impl ShareNameIdent {
    /// The key of the share name (see `share_name_key`).
    pub fn to_key(&self) -> (r: String)
        ensures
            r@ == share_name_key(self.tenant@, self.share_name@),
    {
        let mut s = String::new();
        push_str(&mut s, PREFIX_SHARE);
        push_str(&mut s, "/");
        let t = escape(self.tenant.as_str());
        push_str(&mut s, t.as_str());
        push_str(&mut s, "/");
        let n = escape(self.share_name.as_str());
        push_str(&mut s, n.as_str());
        s
    }

    /// The share name that a key stands for (see `share_name_from_key`).
    pub fn from_key(s: &str) -> (r: Result<ShareNameIdent, KVApiKeyError>)
        ensures
            match share_name_from_key(s@) {
                Ok((tenant, name)) => r matches Ok(k) && k.tenant@ == tenant && k.share_name@ == name,
                Err(e) => r matches Err(x) && x@ == e,
            },
    {
        let segs = match key_segments(s, PREFIX_SHARE) {
            Ok(v) => v,
            Err(e) => return Err(e),
        };
        let ghost sv = split_on(s@, '/');
        if segs.len() < 2 {
            return Err(wrong_number(2, s));
        }
        if segs.len() < 3 {
            return Err(wrong_number(3, s));
        }
        if segs.len() > 3 {
            return Err(wrong_number(3, s));
        }
        assert(sv[1] == segs@[1]@ && sv[2] == segs@[2]@);
        let tenant = match unescape_name(segs[1].as_str()) {
            Ok(t) => t,
            Err(e) => return Err(e),
        };
        let share_name = match unescape_name(segs[2].as_str()) {
            Ok(t) => t,
            Err(e) => return Err(e),
        };
        Ok(ShareNameIdent { tenant, share_name })
    }
}

/// Reads a key of a share id under a prefix (see `share_id_from_key`).
fn id_from_key(s: &str, prefix: &str) -> (r: Result<u64, KVApiKeyError>)
    ensures
        match share_id_from_key(prefix@, s@) {
            Ok(id) => r matches Ok(v) && v as nat == id,
            Err(e) => r matches Err(x) && x@ == e,
        },
{
    let segs = match key_segments(s, prefix) {
        Ok(v) => v,
        Err(e) => return Err(e),
    };
    let ghost sv = split_on(s@, '/');
    if segs.len() < 2 {
        return Err(wrong_number(2, s));
    }
    assert(sv[1] == segs@[1]@);
    let id = match decode_id(segs[1].as_str()) {
        Ok(v) => v,
        Err(e) => return Err(e),
    };
    if segs.len() > 2 {
        return Err(wrong_number(2, s));
    }
    Ok(id)
}

impl ShareId {
    /// The key of the share id: `__fd_share_id/` and the id.
    pub fn to_key(&self) -> (r: String)
        ensures
            r@ == share_id_key(PREFIX_SHARE_ID@, self.share_id),
    {
        let mut s = String::new();
        push_str(&mut s, PREFIX_SHARE_ID);
        push_str(&mut s, "/");
        push_decimal(&mut s, self.share_id);
        s
    }

    /// The share id that a key stands for (see `share_id_from_key`).
    pub fn from_key(s: &str) -> (r: Result<ShareId, KVApiKeyError>)
        ensures
            match share_id_from_key(PREFIX_SHARE_ID@, s@) {
                Ok(id) => r matches Ok(k) && k.share_id as nat == id,
                Err(e) => r matches Err(x) && x@ == e,
            },
    {
        match id_from_key(s, PREFIX_SHARE_ID) {
            Ok(share_id) => Ok(ShareId { share_id }),
            Err(e) => Err(e),
        }
    }
}

impl ShareIdToName {
    /// The key from the share id to its name: `__fd_share_id_to_name/` and the id.
    pub fn to_key(&self) -> (r: String)
        ensures
            r@ == share_id_key(PREFIX_SHARE_ID_TO_NAME@, self.share_id),
    {
        let mut s = String::new();
        push_str(&mut s, PREFIX_SHARE_ID_TO_NAME);
        push_str(&mut s, "/");
        push_decimal(&mut s, self.share_id);
        s
    }

    /// The share id that a key stands for (see `share_id_from_key`).
    pub fn from_key(s: &str) -> (r: Result<ShareIdToName, KVApiKeyError>)
        ensures
            match share_id_from_key(PREFIX_SHARE_ID_TO_NAME@, s@) {
                Ok(id) => r matches Ok(k) && k.share_id as nat == id,
                Err(e) => r matches Err(x) && x@ == e,
            },
    {
        match id_from_key(s, PREFIX_SHARE_ID_TO_NAME) {
            Ok(share_id) => Ok(ShareIdToName { share_id }),
            Err(e) => Err(e),
        }
    }
}

impl ShareAccountNameIdent {
    /// The key of the share account (see `share_account_key`).
    pub fn to_key(&self) -> (r: String)
        ensures
            r@ == share_account_key(self.account@, self.share_id),
    {
        let mut s = String::new();
        push_str(&mut s, PREFIX_SHARE_ACCOUNT_ID);
        push_str(&mut s, "/");
        let a = escape(self.account.as_str());
        push_str(&mut s, a.as_str());
        push_str(&mut s, "/");
        push_decimal(&mut s, self.share_id);
        s
    }

    /// The share account that a key stands for (see `share_account_from_key`).
    pub fn from_key(s: &str) -> (r: Result<ShareAccountNameIdent, KVApiKeyError>)
        ensures
            match share_account_from_key(s@) {
                Ok((account, id)) => r matches Ok(k) && k.account@ == account && k.share_id as nat == id,
                Err(e) => r matches Err(x) && x@ == e,
            },
    {
        let segs = match key_segments(s, PREFIX_SHARE_ACCOUNT_ID) {
            Ok(v) => v,
            Err(e) => return Err(e),
        };
        let ghost sv = split_on(s@, '/');
        if segs.len() < 2 {
            return Err(wrong_number(2, s));
        }
        if segs.len() < 3 {
            return Err(wrong_number(3, s));
        }
        assert(sv[1] == segs@[1]@ && sv[2] == segs@[2]@);
        let share_id = match decode_id(segs[2].as_str()) {
            Ok(v) => v,
            Err(e) => return Err(e),
        };
        if segs.len() > 3 {
            return Err(wrong_number(3, s));
        }
        let account = match unescape_name(segs[1].as_str()) {
            Ok(t) => t,
            Err(e) => return Err(e),
        };
        Ok(ShareAccountNameIdent { account, share_id })
    }
}


/// A key of the form `prefix/a/b`, where none of the parts holds `/`,
/// splits into the three parts.
proof fn lemma_split_three(p: Seq<char>, a: Seq<char>, b: Seq<char>)
    requires
        forall|i: int| 0 <= i < p.len() ==> #[trigger] p[i] != '/',
        forall|i: int| 0 <= i < a.len() ==> #[trigger] a[i] != '/',
        forall|i: int| 0 <= i < b.len() ==> #[trigger] b[i] != '/',
    ensures
        split_on(p + "/"@ + a + "/"@ + b, '/') == seq![p, a, b],
{
    reveal_strlit("/");
    let key = p + "/"@ + a + "/"@ + b;
    assert(key =~= p + seq!['/'] + (a + seq!['/'] + b));
    lemma_split_on_segment(p, a + seq!['/'] + b, '/');
    lemma_split_on_segment(a, b, '/');
    lemma_split_on_segment(b, Seq::empty(), '/');
    assert(seq![p] + (seq![a] + seq![b]) =~= seq![p, a, b]);
}

/// A key of the form `prefix/a`, where neither part holds `/`, splits into
/// the two parts.
proof fn lemma_split_two(p: Seq<char>, a: Seq<char>)
    requires
        forall|i: int| 0 <= i < p.len() ==> #[trigger] p[i] != '/',
        forall|i: int| 0 <= i < a.len() ==> #[trigger] a[i] != '/',
    ensures
        split_on(p + "/"@ + a, '/') == seq![p, a],
{
    reveal_strlit("/");
    let key = p + "/"@ + a;
    assert(key =~= p + seq!['/'] + a);
    lemma_split_on_segment(p, a, '/');
    lemma_split_on_segment(a, Seq::empty(), '/');
    assert(seq![p] + seq![a] =~= seq![p, a]);
}

/// A share name reads back from its key.
pub proof fn law_share_name_key_round_trip(tenant: Seq<char>, share_name: Seq<char>)
    ensures
        share_name_from_key(share_name_key(tenant, share_name)) == Ok::<(Seq<char>, Seq<char>), KeyErrorView>((tenant, share_name)),
{
    reveal_strlit("__fd_share");
    lemma_escaped_no_slash(tenant);
    lemma_escaped_no_slash(share_name);
    lemma_split_three(PREFIX_SHARE@, escaped(tenant), escaped(share_name));
    lemma_unescape_spec_escape(tenant);
    lemma_unescape_spec_escape(share_name);
}

/// A share id reads back from its key.
pub proof fn law_share_id_key_round_trip(share_id: u64)
    ensures
        share_id_from_key(PREFIX_SHARE_ID@, share_id_key(PREFIX_SHARE_ID@, share_id)) == Ok::<nat, KeyErrorView>(share_id as nat),
{
    reveal_strlit("__fd_share_id");
    lemma_decimal_no_slash(share_id as nat);
    lemma_split_two(PREFIX_SHARE_ID@, decimal(share_id as nat));
    lemma_parse_decimal(share_id as nat);
}

/// A share id reads back from its key to the share's name.
pub proof fn law_share_id_to_name_key_round_trip(share_id: u64)
    ensures
        share_id_from_key(PREFIX_SHARE_ID_TO_NAME@, share_id_key(PREFIX_SHARE_ID_TO_NAME@, share_id)) == Ok::<nat, KeyErrorView>(share_id as nat),
{
    reveal_strlit("__fd_share_id_to_name");
    lemma_decimal_no_slash(share_id as nat);
    lemma_split_two(PREFIX_SHARE_ID_TO_NAME@, decimal(share_id as nat));
    lemma_parse_decimal(share_id as nat);
}

/// A share account reads back from its key.
pub proof fn law_share_account_key_round_trip(account: Seq<char>, share_id: u64)
    ensures
        share_account_from_key(share_account_key(account, share_id)) == Ok::<(Seq<char>, nat), KeyErrorView>((account, share_id as nat)),
{
    reveal_strlit("__fd_share_account_id");
    lemma_escaped_no_slash(account);
    lemma_decimal_no_slash(share_id as nat);
    lemma_split_three(PREFIX_SHARE_ACCOUNT_ID@, escaped(account), decimal(share_id as nat));
    lemma_parse_decimal(share_id as nat);
    lemma_unescape_spec_escape(account);
}

/// Two share names have the same key only if they are the same name.
pub proof fn law_share_name_key_injective(t1: Seq<char>, n1: Seq<char>, t2: Seq<char>, n2: Seq<char>)
    requires
        share_name_key(t1, n1) == share_name_key(t2, n2),
    ensures
        t1 == t2,
        n1 == n2,
{
    law_share_name_key_round_trip(t1, n1);
    law_share_name_key_round_trip(t2, n2);
}

} // verus!
