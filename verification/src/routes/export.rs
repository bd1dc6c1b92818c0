//! The export endpoint's token check.

use vstd::prelude::*;
use vstd::utf8::encode_utf8;

use crate::error::AppError;
use crate::models::Registration;
use crate::routes::admin::{bearer_matches, header_bytes, presented_token};

verus! {

/// Refuses a request whose bearer token is not the export token.
pub fn check_export_token(export_token: &str, header: Option<&[u8]>) -> (r: Result<(), AppError>)
    ensures
        r is Ok <==> presented_token(header_bytes(header)) == encode_utf8(export_token@),
        r matches Err(e) ==> e == AppError::Unauthorized,
{
    if !bearer_matches(header, export_token) {
        return Err(AppError::Unauthorized);
    }
    Ok(())
}

} // verus!

verus! {

/// A stored user: the user handle, the email bound to its key and when it registered.
pub struct UserRecord {
    pub user_id: u128,
    pub email: String,
    pub created_at: String,
}

/// A stored signup of a user.
pub struct SignupRecord {
    pub user_id: u128,
    pub full_name: String,
    pub company: String,
    pub street: String,
    pub postal_code: String,
    pub city: String,
    pub country: String,
    pub gdpr_consent: bool,
    pub created_at: String,
}

/// The export entry for a user, with the details of a signup or without any.
pub open spec fn registration_row(u: UserRecord, s: Option<SignupRecord>) -> Registration {
    match s {
        Some(s) => Registration {
            email: u.email,
            registered_at: u.created_at,
            signed_up: true,
            full_name: Some(s.full_name),
            company: Some(s.company),
            street: Some(s.street),
            postal_code: Some(s.postal_code),
            city: Some(s.city),
            country: Some(s.country),
            gdpr_consent: Some(s.gdpr_consent),
            signed_up_at: Some(s.created_at),
        },
        None => Registration {
            email: u.email,
            registered_at: u.created_at,
            signed_up: false,
            full_name: None,
            company: None,
            street: None,
            postal_code: None,
            city: None,
            country: None,
            gdpr_consent: None,
            signed_up_at: None,
        },
    }
}

/// The entries that `u`'s signups give, one per signup of that user, in stored order.
pub open spec fn signup_rows(u: UserRecord, signups: Seq<SignupRecord>) -> Seq<Registration>
    decreases signups.len(),
{
    if signups.len() == 0 {
        Seq::empty()
    } else if signups.last().user_id == u.user_id {
        signup_rows(u, signups.drop_last()).push(registration_row(u, Some(signups.last())))
    } else {
        signup_rows(u, signups.drop_last())
    }
}

/// The entries of a user: those of its signups, or one without details if it has none.
pub open spec fn user_rows(u: UserRecord, signups: Seq<SignupRecord>) -> Seq<Registration> {
    if signup_rows(u, signups).len() == 0 {
        seq![registration_row(u, None)]
    } else {
        signup_rows(u, signups)
    }
}

/// Every user joined with its signups, users with none kept: the rows of a left join.
pub open spec fn joined(users: Seq<UserRecord>, signups: Seq<SignupRecord>) -> Seq<Registration>
    decreases users.len(),
{
    if users.len() == 0 {
        Seq::empty()
    } else {
        joined(users.drop_last(), signups) + user_rows(users.last(), signups)
    }
}

/// Byte strings in lexicographic order, a proper prefix first: how the database orders
/// text.
pub open spec fn bytes_lt(a: Seq<u8>, b: Seq<u8>) -> bool
    decreases a.len(),
{
    if a.len() == 0 {
        b.len() > 0
    } else if b.len() == 0 {
        false
    } else if a[0] != b[0] {
        a[0] < b[0]
    } else {
        bytes_lt(a.drop_first(), b.drop_first())
    }
}

/// The key an entry is ordered by: its registration time's text, as bytes.
pub open spec fn age_key(r: Registration) -> Seq<u8> {
    encode_utf8(r.registered_at@)
}

/// Entries ordered newest first: no entry was registered before a later one.
pub open spec fn newest_first(rows: Seq<Registration>) -> bool {
    forall|i: int, j: int|
        0 <= i < j < rows.len() ==> !bytes_lt(#[trigger] age_key(rows[i]), #[trigger] age_key(rows[j]))
}

proof fn lemma_bytes_lt_transitive(a: Seq<u8>, b: Seq<u8>, c: Seq<u8>)
    requires
        bytes_lt(a, b),
        bytes_lt(b, c),
    ensures
        bytes_lt(a, c),
    decreases a.len(),
{
    if a.len() > 0 && a[0] == b[0] && b[0] == c[0] {
        lemma_bytes_lt_transitive(a.drop_first(), b.drop_first(), c.drop_first());
    }
}

proof fn lemma_bytes_lt_irreflexive(a: Seq<u8>)
    ensures
        !bytes_lt(a, a),
    decreases a.len(),
{
    if a.len() > 0 {
        lemma_bytes_lt_irreflexive(a.drop_first());
    }
}

/// Whether byte string `a` comes before `b`.
fn bytes_before(a: &[u8], b: &[u8]) -> (r: bool)
    ensures
        r == bytes_lt(a@, b@),
{
    let mut k: usize = 0;
    assert(a@.skip(0) =~= a@);
    assert(b@.skip(0) =~= b@);
    while k < a.len() && k < b.len() && a[k] == b[k]
        invariant
            k <= a.len(),
            k <= b.len(),
            bytes_lt(a@, b@) == bytes_lt(a@.skip(k as int), b@.skip(k as int)),
        decreases a.len() - k,
    {
        assert(a@.skip(k as int).drop_first() =~= a@.skip(k + 1));
        assert(b@.skip(k as int).drop_first() =~= b@.skip(k + 1));
        k = k + 1;
    }
    if k == a.len() {
        k < b.len()
    } else if k == b.len() {
        false
    } else {
        a[k] < b[k]
    }
}

/// Inserts `r` into entries ordered newest first, after every entry not older than it.
fn insert_newest_first(sorted: &mut Vec<Registration>, r: Registration)
    requires
        newest_first(old(sorted)@),
    ensures
        newest_first(final(sorted)@),
        final(sorted)@.to_multiset() == old(sorted)@.to_multiset().insert(r),
{
    let ghost key = age_key(r);
    let mut p: usize = 0;
    while p < sorted.len() && !bytes_before(sorted[p].registered_at.as_str().as_bytes(), r.registered_at.as_str().as_bytes())
        invariant
            p <= sorted.len(),
            key == age_key(r),
            forall|k: int| 0 <= k < p ==> !bytes_lt(#[trigger] age_key(sorted@[k]), key),
        decreases sorted.len() - p,
    {
        p = p + 1;
    }
    let ghost before = sorted@;
    proof {
        broadcast use vstd::seq_lib::to_multiset_insert;

        assert forall|k: int| p <= k < before.len() implies !bytes_lt(key, #[trigger] age_key(before[k])) by {
            assert(bytes_lt(age_key(before[p as int]), key));
            if bytes_lt(key, age_key(before[k])) {
                lemma_bytes_lt_transitive(age_key(before[p as int]), key, age_key(before[k]));
                if k == p {
                    lemma_bytes_lt_irreflexive(age_key(before[k]));
                } else {
                    assert(!bytes_lt(age_key(before[p as int]), age_key(before[k])));
                }
            }
        }
        before.to_multiset_ensures();
        vstd::seq_lib::to_multiset_insert(before, p as int, r);
    }
    sorted.insert(p, r);
    proof {
        let after = sorted@;
        assert forall|i: int, j: int| 0 <= i < j < after.len() implies !bytes_lt(
            #[trigger] age_key(after[i]),
            #[trigger] age_key(after[j]),
        ) by {
            if i < p && j < p {
                assert(after[i] == before[i] && after[j] == before[j]);
            } else if i < p && j == p {
            } else if i < p && j > p {
                assert(after[i] == before[i] && after[j] == before[j - 1]);
            } else if i == p {
                assert(after[j] == before[j - 1]);
            } else {
                assert(after[i] == before[i - 1] && after[j] == before[j - 1]);
            }
        }
    }
}

fn signed_row(u: &UserRecord, s: &SignupRecord) -> (r: Registration)
    ensures
        r == registration_row(*u, Some(*s)),
{
    Registration {
        email: u.email.clone(),
        registered_at: u.created_at.clone(),
        signed_up: true,
        full_name: Some(s.full_name.clone()),
        company: Some(s.company.clone()),
        street: Some(s.street.clone()),
        postal_code: Some(s.postal_code.clone()),
        city: Some(s.city.clone()),
        country: Some(s.country.clone()),
        gdpr_consent: Some(s.gdpr_consent),
        signed_up_at: Some(s.created_at.clone()),
    }
}

fn unsigned_row(u: &UserRecord) -> (r: Registration)
    ensures
        r == registration_row(*u, None),
{
    Registration {
        email: u.email.clone(),
        registered_at: u.created_at.clone(),
        signed_up: false,
        full_name: None,
        company: None,
        street: None,
        postal_code: None,
        city: None,
        country: None,
        gdpr_consent: None,
        signed_up_at: None,
    }
}

/// The export: every registered user once per signup it has (once without details
/// where it has none), newest registration first. The entries are exactly those of the
/// left join of users with signups, in an order where no entry is older than a later one.
pub fn all_registrations(users: &Vec<UserRecord>, signups: &Vec<SignupRecord>) -> (r: Vec<
    Registration,
>)
    ensures
        r@.to_multiset() == joined(users@, signups@).to_multiset(),
        newest_first(r@),
{
    broadcast use vstd::seq_lib::group_to_multiset_ensures;

    let mut sorted: Vec<Registration> = Vec::new();
    assert(sorted@.to_multiset() =~= joined(users@.take(0), signups@).to_multiset());
    let mut i: usize = 0;
    while i < users.len()
        invariant
            i <= users.len(),
            newest_first(sorted@),
            sorted@.to_multiset() == joined(users@.take(i as int), signups@).to_multiset(),
        decreases users.len() - i,
    {
        let u = &users[i];
        let ghost prefix = joined(users@.take(i as int), signups@);
        let mut found = false;
        let mut j: usize = 0;
        assert(signups@.take(0) =~= Seq::<SignupRecord>::empty());
        assert(prefix + signup_rows(*u, signups@.take(0)) =~= prefix);
        while j < signups.len()
            invariant
                i < users.len(),
                *u == users@[i as int],
                j <= signups.len(),
                newest_first(sorted@),
                found == (signup_rows(*u, signups@.take(j as int)).len() > 0),
                sorted@.to_multiset() == (prefix + signup_rows(*u, signups@.take(j as int))).to_multiset(),
            decreases signups.len() - j,
        {
            let ghost before = signup_rows(*u, signups@.take(j as int));
            assert(signups@.take(j + 1).drop_last() =~= signups@.take(j as int));
            if signups[j].user_id == u.user_id {
                let row = signed_row(u, &signups[j]);
                insert_newest_first(&mut sorted, row);
                found = true;
                assert(prefix + before.push(row) =~= (prefix + before).push(row));
                proof {
                    vstd::seq_lib::to_multiset_build(prefix + before, row);
                }
            }
            j = j + 1;
        }
        assert(signups@.take(signups@.len() as int) =~= signups@);
        if !found {
            let row = unsigned_row(u);
            insert_newest_first(&mut sorted, row);
            assert(prefix + user_rows(*u, signups@) =~= (prefix + signup_rows(*u, signups@)).push(row));
            proof {
                vstd::seq_lib::to_multiset_build(prefix + signup_rows(*u, signups@), row);
            }
        }
        assert(users@.take(i + 1).drop_last() =~= users@.take(i as int));
        assert(users@.take(i + 1).last() == users@[i as int]);
        assert(joined(users@.take(i + 1), signups@) == prefix + user_rows(*u, signups@));
        i = i + 1;
    }
    assert(users@.take(users@.len() as int) =~= users@);
    sorted
}

/// An entry is consistent: it is marked signed up exactly when it carries signup details,
/// and then it carries all of them.
pub open spec fn row_consistent(r: Registration) -> bool {
    &&& r.signed_up <==> r.full_name is Some
    &&& r.full_name is Some <==> r.company is Some
    &&& r.full_name is Some <==> r.street is Some
    &&& r.full_name is Some <==> r.postal_code is Some
    &&& r.full_name is Some <==> r.city is Some
    &&& r.full_name is Some <==> r.country is Some
    &&& r.full_name is Some <==> r.gdpr_consent is Some
    &&& r.full_name is Some <==> r.signed_up_at is Some
}

/// The entries `signup_rows` gives are `u`'s, each with details.
proof fn lemma_signup_rows_shape(u: UserRecord, signups: Seq<SignupRecord>)
    ensures
        forall|k: int|
            0 <= k < signup_rows(u, signups).len() ==> {
                let r = #[trigger] signup_rows(u, signups)[k];
                &&& r.email == u.email
                &&& r.registered_at == u.created_at
                &&& r.signed_up
                &&& row_consistent(r)
            },
    decreases signups.len(),
{
    if signups.len() > 0 {
        lemma_signup_rows_shape(u, signups.drop_last());
    }
}

/// Every entry of the join belongs to one of the users and is consistent; every user has
/// at least one entry.
proof fn lemma_joined_shape(users: Seq<UserRecord>, signups: Seq<SignupRecord>)
    ensures
        forall|k: int|
            0 <= k < joined(users, signups).len() ==> row_consistent(
                #[trigger] joined(users, signups)[k],
            ),
        forall|m: int|
            0 <= m < users.len() ==> exists|k: int|
                0 <= k < joined(users, signups).len() && (#[trigger] joined(users, signups)[k]).email
                    == (#[trigger] users[m]).email && joined(users, signups)[k].registered_at
                    == users[m].created_at,
    decreases users.len(),
{
    if users.len() > 0 {
        let init = users.drop_last();
        let u = users.last();
        lemma_joined_shape(init, signups);
        lemma_signup_rows_shape(u, signups);
        let prev = joined(init, signups);
        let mine = user_rows(u, signups);
        let all = joined(users, signups);
        assert(all == prev + mine);
        assert(mine.len() > 0);
        assert forall|k: int| 0 <= k < all.len() implies row_consistent(#[trigger] all[k]) by {
            if k >= prev.len() {
                assert(all[k] == mine[k - prev.len()]);
            } else {
                assert(all[k] == prev[k]);
            }
        }
        assert forall|m: int| 0 <= m < users.len() implies exists|k: int|
            0 <= k < all.len() && (#[trigger] all[k]).email == (#[trigger] users[m]).email
                && all[k].registered_at == users[m].created_at by {
            if m == users.len() - 1 {
                assert(all[prev.len() as int] == mine[0]);
            } else {
                assert(users[m] == init[m]);
                let k = choose|k: int|
                    0 <= k < prev.len() && (#[trigger] prev[k]).email == init[m].email
                        && prev[k].registered_at == init[m].created_at;
                assert(all[k] == prev[k]);
            }
        }
    }
}

/// The export keeps its promises for any stored users and signups: every registered user
/// appears in it with the email and time it registered with, and every entry is marked
/// signed up exactly when it carries the signup details.
pub proof fn lemma_export_covers_every_user(
    users: Seq<UserRecord>,
    signups: Seq<SignupRecord>,
    export: Seq<Registration>,
)
    requires
        export.to_multiset() == joined(users, signups).to_multiset(),
    ensures
        forall|k: int| 0 <= k < export.len() ==> row_consistent(#[trigger] export[k]),
        forall|m: int|
            0 <= m < users.len() ==> exists|k: int|
                0 <= k < export.len() && (#[trigger] export[k]).email == (#[trigger] users[m]).email
                    && export[k].registered_at == users[m].created_at,
{
    broadcast use vstd::seq_lib::group_to_multiset_ensures;

    lemma_joined_shape(users, signups);
    let j = joined(users, signups);
    assert forall|k: int| 0 <= k < export.len() implies row_consistent(#[trigger] export[k]) by {
        assert(export.to_multiset().count(export[k]) > 0);
        assert(j.contains(export[k]));
        let i = choose|i: int| 0 <= i < j.len() && j[i] == export[k];
        assert(row_consistent(j[i]));
    }
    assert forall|m: int| 0 <= m < users.len() implies exists|k: int|
        0 <= k < export.len() && (#[trigger] export[k]).email == (#[trigger] users[m]).email
            && export[k].registered_at == users[m].created_at by {
        let i = choose|i: int|
            0 <= i < j.len() && (#[trigger] j[i]).email == users[m].email && j[i].registered_at
                == users[m].created_at;
        assert(j.to_multiset().count(j[i]) > 0);
        assert(export.contains(j[i]));
        let k = choose|k: int| 0 <= k < export.len() && export[k] == j[i];
        assert(export[k].email == users[m].email);
    }
}

/// No two signups belong to the same user (the signup table is keyed by user).
pub open spec fn one_signup_per_user(signups: Seq<SignupRecord>) -> bool {
    forall|a: int, b: int|
        0 <= a < b < signups.len() ==> (#[trigger] signups[a]).user_id != (#[trigger] signups[b]).user_id
}

proof fn lemma_no_signup_no_rows(u: UserRecord, signups: Seq<SignupRecord>)
    requires
        forall|k: int| 0 <= k < signups.len() ==> (#[trigger] signups[k]).user_id != u.user_id,
    ensures
        signup_rows(u, signups).len() == 0,
    decreases signups.len(),
{
    if signups.len() > 0 {
        lemma_no_signup_no_rows(u, signups.drop_last());
    }
}

proof fn lemma_user_rows_single(u: UserRecord, signups: Seq<SignupRecord>)
    requires
        one_signup_per_user(signups),
    ensures
        user_rows(u, signups).len() == 1,
    decreases signups.len(),
{
    if signups.len() > 0 {
        let init = signups.drop_last();
        assert(one_signup_per_user(init)) by {
            assert forall|a: int, b: int| 0 <= a < b < init.len() implies (
            #[trigger] init[a]).user_id != (#[trigger] init[b]).user_id by {
                assert(init[a] == signups[a] && init[b] == signups[b]);
            }
        }
        if signups.last().user_id == u.user_id {
            assert forall|k: int| 0 <= k < init.len() implies (#[trigger] init[k]).user_id
                != u.user_id by {
                assert(init[k] == signups[k]);
            }
            lemma_no_signup_no_rows(u, init);
        } else {
            lemma_user_rows_single(u, init);
        }
    }
}

/// With at most one signup per user, the export has exactly one entry per registered user.
pub proof fn lemma_export_one_entry_per_user(
    users: Seq<UserRecord>,
    signups: Seq<SignupRecord>,
    export: Seq<Registration>,
)
    requires
        one_signup_per_user(signups),
        export.to_multiset() == joined(users, signups).to_multiset(),
    ensures
        export.len() == users.len(),
{
    lemma_joined_len(users, signups);
    vstd::seq_lib::to_multiset_len(export);
    vstd::seq_lib::to_multiset_len(joined(users, signups));
}

proof fn lemma_joined_len(users: Seq<UserRecord>, signups: Seq<SignupRecord>)
    requires
        one_signup_per_user(signups),
    ensures
        joined(users, signups).len() == users.len(),
    decreases users.len(),
{
    if users.len() > 0 {
        lemma_joined_len(users.drop_last(), signups);
        lemma_user_rows_single(users.last(), signups);
    }
}

/// Entry `r` is user `u`'s and carries the details of signup `s`, each under its own name.
pub open spec fn carries_signup(r: Registration, u: UserRecord, s: SignupRecord) -> bool {
    &&& r.email == u.email
    &&& r.registered_at == u.created_at
    &&& r.signed_up
    &&& r.full_name == Some(s.full_name)
    &&& r.company == Some(s.company)
    &&& r.street == Some(s.street)
    &&& r.postal_code == Some(s.postal_code)
    &&& r.city == Some(s.city)
    &&& r.country == Some(s.country)
    &&& r.gdpr_consent == Some(s.gdpr_consent)
    &&& r.signed_up_at == Some(s.created_at)
}

/// Entry `r` is user `u`'s and carries no signup details.
pub open spec fn carries_no_signup(r: Registration, u: UserRecord) -> bool {
    &&& r.email == u.email
    &&& r.registered_at == u.created_at
    &&& !r.signed_up
    &&& r.full_name is None && r.company is None && r.street is None
    &&& r.postal_code is None && r.city is None && r.country is None
    &&& r.gdpr_consent is None && r.signed_up_at is None
}

/// Entry `r` is user `u`'s and carries one of `u`'s signups among `signups`.
spec fn carries_some_signup(r: Registration, u: UserRecord, signups: Seq<SignupRecord>) -> bool {
    exists|m: int|
        0 <= m < signups.len() && (#[trigger] signups[m]).user_id == u.user_id && carries_signup(
            r,
            u,
            signups[m],
        )
}

proof fn lemma_signup_rows_carry(u: UserRecord, signups: Seq<SignupRecord>)
    ensures
        forall|k: int|
            0 <= k < signup_rows(u, signups).len() ==> carries_some_signup(
                #[trigger] signup_rows(u, signups)[k],
                u,
                signups,
            ),
    decreases signups.len(),
{
    if signups.len() > 0 {
        let init = signups.drop_last();
        lemma_signup_rows_carry(u, init);
        let prev = signup_rows(u, init);
        let rows = signup_rows(u, signups);
        assert forall|k: int| 0 <= k < rows.len() implies carries_some_signup(
            #[trigger] rows[k],
            u,
            signups,
        ) by {
            if k < prev.len() {
                assert(rows[k] == prev[k]);
                assert(carries_some_signup(prev[k], u, init));
                let m = choose|m: int|
                    0 <= m < init.len() && (#[trigger] init[m]).user_id == u.user_id
                        && carries_signup(prev[k], u, init[m]);
                assert(signups[m] == init[m]);
            } else {
                let m = signups.len() - 1;
                assert(rows[k] == registration_row(u, Some(signups[m])));
                assert(carries_signup(rows[k], u, signups[m]));
            }
        }
    }
}

proof fn lemma_signup_rows_nonempty(u: UserRecord, signups: Seq<SignupRecord>, m: int)
    requires
        0 <= m < signups.len(),
        signups[m].user_id == u.user_id,
    ensures
        signup_rows(u, signups).len() > 0,
    decreases signups.len(),
{
    if m < signups.len() - 1 {
        assert(signups.drop_last()[m] == signups[m]);
        lemma_signup_rows_nonempty(u, signups.drop_last(), m);
    }
}

proof fn lemma_joined_carry(users: Seq<UserRecord>, signups: Seq<SignupRecord>)
    ensures
        forall|k: int|
            0 <= k < joined(users, signups).len() && (#[trigger] joined(users, signups)[k]).signed_up
                ==> exists|i: int, m: int|
                0 <= i < users.len() && 0 <= m < signups.len() && (#[trigger] signups[m]).user_id
                    == (#[trigger] users[i]).user_id && carries_signup(
                    joined(users, signups)[k],
                    users[i],
                    signups[m],
                ),
        forall|k: int|
            0 <= k < joined(users, signups).len() && !(#[trigger] joined(users, signups)[k]).signed_up
                ==> exists|i: int|
                0 <= i < users.len() && carries_no_signup(joined(users, signups)[k], #[trigger] users[i])
                    && forall|m: int| 0 <= m < signups.len() ==> (#[trigger] signups[m]).user_id != users[i].user_id,
    decreases users.len(),
{
    if users.len() > 0 {
        let init = users.drop_last();
        let i0 = users.len() - 1;
        let u = users[i0];
        lemma_joined_carry(init, signups);
        lemma_signup_rows_carry(u, signups);
        let prev = joined(init, signups);
        let mine = user_rows(u, signups);
        let all = joined(users, signups);
        assert(all == prev + mine);
        assert forall|k: int| 0 <= k < all.len() && (#[trigger] all[k]).signed_up implies exists|
            i: int,
            m: int,
        |
            0 <= i < users.len() && 0 <= m < signups.len() && (#[trigger] signups[m]).user_id
                == (#[trigger] users[i]).user_id && carries_signup(all[k], users[i], signups[m]) by {
            if k < prev.len() {
                assert(all[k] == prev[k]);
                let (i, m) = choose|i: int, m: int|
                    0 <= i < init.len() && 0 <= m < signups.len() && (#[trigger] signups[m]).user_id
                        == (#[trigger] init[i]).user_id && carries_signup(prev[k], init[i], signups[m]);
                assert(users[i] == init[i]);
            } else {
                let rows = signup_rows(u, signups);
                assert(all[k] == mine[k - prev.len()]);
                if rows.len() == 0 {
                    assert(mine[k - prev.len()] == registration_row(u, None));
                } else {
                    let m = choose|m: int|
                        0 <= m < signups.len() && (#[trigger] signups[m]).user_id == u.user_id
                            && carries_signup(rows[k - prev.len()], u, signups[m]);
                    assert(users[i0] == u);
                }
            }
        }
        assert forall|k: int| 0 <= k < all.len() && !(#[trigger] all[k]).signed_up implies exists|i: int|
            0 <= i < users.len() && carries_no_signup(all[k], #[trigger] users[i])
                && forall|m: int| 0 <= m < signups.len() ==> (#[trigger] signups[m]).user_id != users[i].user_id by {
            if k < prev.len() {
                assert(all[k] == prev[k]);
                let i = choose|i: int|
                    0 <= i < init.len() && carries_no_signup(prev[k], #[trigger] init[i])
                        && forall|m: int| 0 <= m < signups.len() ==> (#[trigger] signups[m]).user_id != init[i].user_id;
                assert(users[i] == init[i]);
            } else {
                let rows = signup_rows(u, signups);
                assert(all[k] == mine[k - prev.len()]);
                if rows.len() == 0 {
                    assert(all[k] == registration_row(u, None));
                    assert(users[i0] == u);
                    assert forall|m: int| 0 <= m < signups.len() implies (#[trigger] signups[m]).user_id
                        != u.user_id by {
                        if signups[m].user_id == u.user_id {
                            lemma_signup_rows_nonempty(u, signups, m);
                        }
                    }
                } else {
                    let m = choose|m: int|
                        0 <= m < signups.len() && (#[trigger] signups[m]).user_id == u.user_id
                            && carries_signup(rows[k - prev.len()], u, signups[m]);
                }
            }
        }
    }
}

/// Every entry of the export is a registered user's. A signed-up entry carries one of
/// that user's signups, each detail under its own name (the signup's city as the city,
/// its country as the country, and so on); any other entry carries no details, and its
/// user has no signup.
pub proof fn lemma_export_entries_carry_their_signup(
    users: Seq<UserRecord>,
    signups: Seq<SignupRecord>,
    export: Seq<Registration>,
)
    requires
        export.to_multiset() == joined(users, signups).to_multiset(),
    ensures
        forall|k: int|
            0 <= k < export.len() && (#[trigger] export[k]).signed_up ==> exists|i: int, m: int|
                0 <= i < users.len() && 0 <= m < signups.len() && (#[trigger] signups[m]).user_id
                    == (#[trigger] users[i]).user_id && carries_signup(export[k], users[i], signups[m]),
        forall|k: int|
            0 <= k < export.len() && !(#[trigger] export[k]).signed_up ==> exists|i: int|
                0 <= i < users.len() && carries_no_signup(export[k], #[trigger] users[i])
                    && forall|m: int| 0 <= m < signups.len() ==> (#[trigger] signups[m]).user_id != users[i].user_id,
{
    broadcast use vstd::seq_lib::group_to_multiset_ensures;

    lemma_joined_carry(users, signups);
    let j = joined(users, signups);
    assert forall|k: int| 0 <= k < export.len() implies exists|x: int| 0 <= x < j.len() && j[x] == #[trigger] export[k] by {
        assert(export.to_multiset().count(export[k]) > 0);
        assert(j.contains(export[k]));
    }
    assert forall|k: int| 0 <= k < export.len() && (#[trigger] export[k]).signed_up implies exists|i: int, m: int|
        0 <= i < users.len() && 0 <= m < signups.len() && (#[trigger] signups[m]).user_id
            == (#[trigger] users[i]).user_id && carries_signup(export[k], users[i], signups[m]) by {
        let x = choose|x: int| 0 <= x < j.len() && j[x] == export[k];
        assert(j[x].signed_up);
    }
    assert forall|k: int| 0 <= k < export.len() && !(#[trigger] export[k]).signed_up implies exists|i: int|
        0 <= i < users.len() && carries_no_signup(export[k], #[trigger] users[i])
            && forall|m: int| 0 <= m < signups.len() ==> (#[trigger] signups[m]).user_id != users[i].user_id by {
        let x = choose|x: int| 0 <= x < j.len() && j[x] == export[k];
        assert(!j[x].signed_up);
    }
}

} // verus!
