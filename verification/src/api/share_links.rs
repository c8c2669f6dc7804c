//! Links that show one monitor to whoever holds them. A link's token is told once,
//! when the link is made; what is kept is only its hash.

use vstd::prelude::*;
use vstd::string::*;

use crate::codec::{hash_cookie_value, Id};
use crate::public::links::share_key;
use crate::text::same_text;
use crate::time::Moment;

verus! {

/// A link to one monitor, as it is kept.
#[derive(Clone, Debug)]
pub struct MonitorShare {
    pub id: Id,
    pub target_id: Id,
    pub label: Option<String>,
    pub token_hash: String,
    pub expires_at: Option<Moment>,
    pub view_count: u64,
    pub last_viewed_at: Option<Moment>,
    pub created_at: Moment,
}

/// What is kept of a token.
pub open spec fn hash_of(token: Seq<char>) -> Seq<char> {
    crate::codec::sha256_text(vstd::utf8::encode_utf8(token))
}

/// Makes a link to a monitor, which `token` opens.
pub fn create_share(
    target_id: Id,
    label: Option<String>,
    expires_at: Option<Moment>,
    token: &str,
    id: Id,
    now: Moment,
) -> (r: MonitorShare)
    ensures
        r.id == id,
        r.target_id == target_id,
        r.label == label,
        r.token_hash@ == hash_of(token@),
        r.expires_at == expires_at,
        r.view_count == 0,
        r.last_viewed_at is None,
        r.created_at == now,
{
    MonitorShare {
        id,
        target_id,
        label,
        token_hash: hash_cookie_value(token),
        expires_at,
        view_count: 0,
        last_viewed_at: None,
        created_at: now,
    }
}

/// Whether the key `key` opens the link `s` at `now`.
pub open spec fn opens(s: MonitorShare, key: Seq<char>, now: Moment) -> bool {
    s.token_hash@ == key && (s.expires_at matches Some(e) ==> now <= e)
}

/// The link `s` after it was looked at once more, at `now`.
pub open spec fn viewed(s: MonitorShare, now: Moment) -> MonitorShare {
    MonitorShare {
        view_count: if s.view_count < u64::MAX {
            (s.view_count + 1) as u64
        } else {
            u64::MAX
        },
        last_viewed_at: Some(now),
        ..s
    }
}

/// `k` is the first of `shares` that the key opens.
pub open spec fn is_first_opened(
    shares: Seq<MonitorShare>,
    key: Seq<char>,
    now: Moment,
    k: int,
) -> bool {
    &&& 0 <= k < shares.len()
    &&& opens(shares[k], key, now)
    &&& forall|j: int| 0 <= j < k ==> !opens(#[trigger] shares[j], key, now)
}

/// `r` is the monitor that the key opens among `before`, and `after` are the links
/// with the look noted; a key that opens nothing changes nothing.
pub open spec fn is_resolved(
    before: Seq<MonitorShare>,
    key: Seq<char>,
    now: Moment,
    r: Option<Id>,
    after: Seq<MonitorShare>,
) -> bool {
    match r {
        Some(t) => exists|k: int|
            {
                &&& #[trigger] is_first_opened(before, key, now, k)
                &&& t == before[k].target_id
                &&& after == before.update(k, viewed(before[k], now))
            },
        None => after == before && forall|j: int|
            0 <= j < before.len() ==> !opens(#[trigger] before[j], key, now),
    }
}

/// The monitor that a key opens, and a note that it was looked at. A key that is
/// unknown or whose link has run out opens nothing.
pub fn resolve_share(shares: &mut Vec<MonitorShare>, key: &str, now: Moment) -> (r: Option<Id>)
    ensures
        is_resolved(old(shares)@, key@, now, r, final(shares)@),
{
    let mut i: usize = 0;
    while i < shares.len()
        invariant
            i <= shares.len(),
            shares@ == old(shares)@,
            forall|j: int| 0 <= j < i ==> !opens(#[trigger] shares@[j], key@, now),
        decreases shares.len() - i,
    {
        let live = match shares[i].expires_at {
            Some(e) => now <= e,
            None => true,
        };
        if live && same_text(shares[i].token_hash.as_str(), key) {
            let s = shares.remove(i);
            let ghost before = s;
            let target_id = s.target_id;
            let seen = MonitorShare {
                id: s.id,
                target_id: s.target_id,
                label: s.label,
                token_hash: s.token_hash,
                expires_at: s.expires_at,
                view_count: if s.view_count < u64::MAX {
                    s.view_count + 1
                } else {
                    u64::MAX
                },
                last_viewed_at: Some(now),
                created_at: s.created_at,
            };
            assert(seen == viewed(before, now));
            shares.insert(i, seen);
            proof {
                assert(is_first_opened(old(shares)@, key@, now, i as int));
                assert(shares@ =~= old(shares)@.update(i as int, viewed(before, now)));
            }
            return Some(target_id);
        }
        i += 1;
    }
    None
}

/// Takes a link back. Whether there was one makes no difference.
pub fn delete_share(shares: Vec<MonitorShare>, id: Id) -> (r: Vec<MonitorShare>)
    ensures
        r@ == shares@.filter(|s: MonitorShare| s.id != id),
{
    let ghost keep = |s: MonitorShare| s.id != id;
    let ghost all = shares@;
    let mut rest = shares;
    let mut out: Vec<MonitorShare> = Vec::new();
    let ghost mut n: int = 0;
    assert(all.take(0).filter(keep) =~= Seq::<MonitorShare>::empty()) by {
        reveal(Seq::filter);
    }
    while rest.len() > 0
        invariant
            0 <= n <= all.len(),
            rest@ == all.skip(n),
            keep == (|s: MonitorShare| s.id != id),
            out@ == all.take(n).filter(keep),
        decreases rest.len(),
    {
        let s = rest.remove(0);
        assert(s == all[n]);
        proof {
            crate::public::incident::lemma_filter_next(all, keep, n);
        }
        if s.id != id {
            out.push(s);
        }
        proof {
            n = n + 1;
        }
        assert(rest@ =~= all.skip(n));
    }
    assert(all.take(n) =~= all);
    out
}

/// A link opens its own monitor: of links that no two tokens open, the token that
/// one was made with leads to the monitor it was made for, until it runs out. The
/// token is as it is written in an address, without blanks around it.
pub proof fn law_a_token_opens_its_monitor(
    shares: Seq<MonitorShare>,
    k: int,
    token: &str,
    target_id: Id,
    label: Option<String>,
    expires_at: Option<Moment>,
    id: Id,
    made_at: Moment,
    key: Result<String, crate::error::AppError>,
    now: Moment,
    r: Option<Id>,
    after: Seq<MonitorShare>,
)
    requires
        token@.len() > 0,
        crate::text::trimmed(token@) == token@,
        0 <= k < shares.len(),
        forall|i: int, j: int|
            0 <= i < j < shares.len() ==> (#[trigger] shares[i]).token_hash@ != (
            #[trigger] shares[j]).token_hash@,
        call_ensures(
            create_share,
            (target_id, label, expires_at, token, id, made_at),
            shares[k],
        ),
        expires_at matches Some(e) ==> now <= e,
        call_ensures(share_key, (token,), key),
        key matches Ok(text) ==> is_resolved(shares, text@, now, r, after),
    ensures
        key is Ok,
        r == Some(target_id),
{
    let text = key->Ok_0;
    assert(opens(shares[k], text@, now));
    match r {
        Some(t) => {
            let j = choose|j: int|
                {
                    &&& #[trigger] is_first_opened(shares, text@, now, j)
                    &&& t == shares[j].target_id
                    &&& after == shares.update(j, viewed(shares[j], now))
                };
            if j < k {
                assert(shares[j].token_hash@ != shares[k].token_hash@);
            } else if k < j {
                assert(shares[k].token_hash@ != shares[j].token_hash@);
            }
        },
        None => {},
    }
}

/// A link that was taken back is gone, and its token opens nothing any more.
pub proof fn law_deleted_links_stay_shut(
    shares: Seq<MonitorShare>,
    id: Id,
    key: Seq<char>,
    now: Moment,
    r: Option<Id>,
    after: Seq<MonitorShare>,
)
    requires
        forall|i: int|
            0 <= i < shares.len() && (#[trigger] shares[i]).token_hash@ == key ==> shares[i].id == id,
        is_resolved(shares.filter(|s: MonitorShare| s.id != id), key, now, r, after),
    ensures
        r is None,
        after == shares.filter(|s: MonitorShare| s.id != id),
{
    let keep = |s: MonitorShare| s.id != id;
    let left = shares.filter(keep);
    assert forall|j: int| 0 <= j < left.len() implies !opens(#[trigger] left[j], key, now) by {
        shares.lemma_filter_pred(keep, j);
        assert(left.contains(left[j]));
        shares.lemma_filter_contains_rev(keep, left[j]);
    }
}

} // verus!
