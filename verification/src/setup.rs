//! Submission of a whole run's work: the full cross-product of the loaded
//! lists is materialized eagerly as queued attempts, in list order, before
//! the controller loop starts.

use vstd::prelude::*;

use crate::creds::Credential;
use crate::creds::FormatError;
use crate::creds::cred_password;
use crate::creds::cred_user;
use crate::creds::has_colon;
use crate::creds::parse_credentials;
use crate::scheduler::Attempt;
use crate::scheduler::Scheduler;
use crate::scheduler::Script;

verus! {

/// The attempts one (user, password) pair contributes: one per script, in
/// script order, each with a fresh retry budget.
pub open spec fn pair_attempts(user: String, password: String, scripts: Seq<Script>) -> Seq<
    Attempt,
> {
    Seq::new(
        scripts.len(),
        |k: int| Attempt { user: user, password: password, script: scripts[k], ttl: 5u8 },
    )
}

/// The attempts one user contributes: every password in list order, each
/// against every script.
pub open spec fn user_attempts(user: String, passwords: Seq<String>, scripts: Seq<Script>) -> Seq<
    Attempt,
>
    decreases passwords.len(),
{
    if passwords.len() == 0 {
        Seq::empty()
    } else {
        user_attempts(user, passwords.drop_last(), scripts) + pair_attempts(
            user,
            passwords.last(),
            scripts,
        )
    }
}

/// Dictionary mode's full cross-product users × passwords × scripts, in
/// submission order.
pub open spec fn dict_attempts(
    users: Seq<String>,
    passwords: Seq<String>,
    scripts: Seq<Script>,
) -> Seq<Attempt>
    decreases users.len(),
{
    if users.len() == 0 {
        Seq::empty()
    } else {
        dict_attempts(users.drop_last(), passwords, scripts) + user_attempts(
            users.last(),
            passwords,
            scripts,
        )
    }
}

/// Confirmation mode's cross-product creds × scripts, in submission
/// order.
pub open spec fn cred_attempts(creds: Seq<Credential>, scripts: Seq<Script>) -> Seq<Attempt>
    decreases creds.len(),
{
    if creds.len() == 0 {
        Seq::empty()
    } else {
        cred_attempts(creds.drop_last(), scripts) + pair_attempts(
            creds.last().user,
            creds.last().password,
            scripts,
        )
    }
}

/// One user's attempts number exactly |passwords| × |scripts|.
pub proof fn lemma_user_attempts_len(user: String, passwords: Seq<String>, scripts: Seq<Script>)
    ensures
        user_attempts(user, passwords, scripts).len() == passwords.len() * scripts.len(),
    decreases passwords.len(),
{
    if passwords.len() == 0 {
    } else {
        lemma_user_attempts_len(user, passwords.drop_last(), scripts);
        assert((passwords.len() - 1) * scripts.len() + scripts.len() == passwords.len()
            * scripts.len()) by (nonlinear_arith);
    }
}

/// Dictionary mode submits exactly |users| × |passwords| × |scripts|
/// attempts.
pub proof fn lemma_dict_attempts_len(
    users: Seq<String>,
    passwords: Seq<String>,
    scripts: Seq<Script>,
)
    ensures
        dict_attempts(users, passwords, scripts).len() == users.len() * passwords.len()
            * scripts.len(),
    decreases users.len(),
{
    let n = users.len() as int;
    let p = passwords.len() as int;
    let s = scripts.len() as int;
    if users.len() == 0 {
        assert(n * p * s == 0) by (nonlinear_arith)
            requires
                n == 0,
        ;
    } else {
        lemma_dict_attempts_len(users.drop_last(), passwords, scripts);
        lemma_user_attempts_len(users.last(), passwords, scripts);
        assert(users.drop_last().len() == n - 1);
        assert(dict_attempts(users, passwords, scripts).len() == (n - 1) * p * s + p * s);
        assert((n - 1) * p * s + p * s == n * p * s) by (nonlinear_arith);
    }
}

/// Confirmation mode submits exactly |creds| × |scripts| attempts.
pub proof fn lemma_cred_attempts_len(creds: Seq<Credential>, scripts: Seq<Script>)
    ensures
        cred_attempts(creds, scripts).len() == creds.len() * scripts.len(),
    decreases creds.len(),
{
    if creds.len() == 0 {
    } else {
        lemma_cred_attempts_len(creds.drop_last(), scripts);
        assert((creds.len() - 1) * scripts.len() + scripts.len() == creds.len() * scripts.len())
            by (nonlinear_arith);
    }
}

/// Submit one (user, password) pair against every script.
fn submit_pair(pool: &mut Scheduler, user: &String, password: &String, scripts: &Vec<Script>)
    requires
        old(pool).inflight + scripts@.len() <= usize::MAX,
    ensures
        final(pool).queue@ == old(pool).queue@ + pair_attempts(*user, *password, scripts@),
        final(pool).inflight == old(pool).inflight + scripts@.len(),
        final(pool).num_threads == old(pool).num_threads,
        final(pool).paused == old(pool).paused,
        old(pool).wf() ==> final(pool).wf(),
{
    let mut k: usize = 0;
    while k < scripts.len()
        invariant
            k <= scripts@.len(),
            old(pool).inflight + scripts@.len() <= usize::MAX,
            pool.queue@ == old(pool).queue@ + pair_attempts(*user, *password, scripts@.take(
                k as int,
            )),
            pool.inflight == old(pool).inflight + k,
            pool.num_threads == old(pool).num_threads,
            pool.paused == old(pool).paused,
            old(pool).wf() ==> pool.wf(),
        decreases scripts@.len() - k,
    {
        let attempt = Attempt::new(user, password, &scripts[k]);
        pool.run(attempt);
        proof {
            assert(pool.queue@ =~= old(pool).queue@ + pair_attempts(
                *user,
                *password,
                scripts@.take(k + 1),
            ));
        }
        k = k + 1;
    }
    proof {
        assert(scripts@.take(scripts@.len() as int) =~= scripts@);
    }
}

/// Submit the whole dictionary cross-product: every user with every
/// password against every script, eagerly, in list order. Returns the
/// number of submitted attempts, exactly |users| × |passwords| ×
/// |scripts|.
pub fn setup_dictionary_attack(
    pool: &mut Scheduler,
    users: &Vec<String>,
    passwords: &Vec<String>,
    scripts: &Vec<Script>,
) -> (n: usize)
    requires
        users@.len() * passwords@.len() <= usize::MAX,
        users@.len() * passwords@.len() * scripts@.len() <= usize::MAX,
        old(pool).inflight + users@.len() * passwords@.len() * scripts@.len() <= usize::MAX,
    ensures
        n == users@.len() * passwords@.len() * scripts@.len(),
        final(pool).queue@ == old(pool).queue@ + dict_attempts(users@, passwords@, scripts@),
        final(pool).inflight == old(pool).inflight + n,
        final(pool).num_threads == old(pool).num_threads,
        final(pool).paused == old(pool).paused,
        old(pool).wf() ==> final(pool).wf(),
{
    let ghost u: int = users@.len() as int;
    let ghost p: int = passwords@.len() as int;
    let ghost s: int = scripts@.len() as int;
    let mut i: usize = 0;
    while i < users.len()
        invariant
            i <= u,
            u == users@.len(),
            p == passwords@.len(),
            s == scripts@.len(),
            u * p <= usize::MAX,
            u * p * s <= usize::MAX,
            old(pool).inflight + u * p * s <= usize::MAX,
            pool.queue@ == old(pool).queue@ + dict_attempts(users@.take(i as int), passwords@, scripts@),
            pool.inflight == old(pool).inflight + i * (p * s),
            pool.num_threads == old(pool).num_threads,
            pool.paused == old(pool).paused,
            old(pool).wf() ==> pool.wf(),
        decreases u - i,
    {
        let ghost qi = pool.queue@;
        let ghost fi = pool.inflight as int;
        let user = &users[i];
        let mut j: usize = 0;
        while j < passwords.len()
            invariant
                i < u,
                j <= p,
                u == users@.len(),
                p == passwords@.len(),
                s == scripts@.len(),
                u * p <= usize::MAX,
                u * p * s <= usize::MAX,
                old(pool).inflight + u * p * s <= usize::MAX,
                user == &users[i as int],
                qi == old(pool).queue@ + dict_attempts(users@.take(i as int), passwords@, scripts@),
                fi == old(pool).inflight + i * (p * s),
                pool.queue@ == qi + user_attempts(*user, passwords@.take(j as int), scripts@),
                pool.inflight == fi + j * s,
                pool.num_threads == old(pool).num_threads,
                pool.paused == old(pool).paused,
                old(pool).wf() ==> pool.wf(),
            decreases p - j,
        {
            proof {
                assert(i * (p * s) + j * s + s <= u * p * s) by (nonlinear_arith)
                    requires
                        0 <= i < u,
                        0 <= j < p,
                        0 <= s,
                        0 <= p,
                ;
            }
            submit_pair(pool, user, &passwords[j], scripts);
            proof {
                assert(passwords@.take(j + 1).drop_last() =~= passwords@.take(j as int));
                assert(pool.queue@ =~= qi + user_attempts(*user, passwords@.take(j + 1), scripts@));
                assert(j * s + s == (j + 1) * s) by (nonlinear_arith);
            }
            j = j + 1;
        }
        proof {
            assert(passwords@.take(p) =~= passwords@);
            assert(users@.take(i + 1).drop_last() =~= users@.take(i as int));
            assert(pool.queue@ =~= old(pool).queue@ + dict_attempts(
                users@.take(i + 1),
                passwords@,
                scripts@,
            ));
            lemma_user_attempts_len(*user, passwords@, scripts@);
            assert(i * (p * s) + p * s == (i + 1) * (p * s)) by (nonlinear_arith);
        }
        i = i + 1;
    }
    proof {
        assert(users@.take(u) =~= users@);
    }
    let n = users.len() * passwords.len() * scripts.len();
    proof {
        assert(u * (p * s) == u * p * s) by (nonlinear_arith);
    }
    n
}

/// Submit every parsed credential against every script, eagerly, in list
/// order. Returns the number of submitted attempts, exactly |creds| ×
/// |scripts|.
pub fn submit_credentials(pool: &mut Scheduler, creds: &Vec<Credential>, scripts: &Vec<Script>) -> (n: usize)
    requires
        creds@.len() * scripts@.len() <= usize::MAX,
        old(pool).inflight + creds@.len() * scripts@.len() <= usize::MAX,
    ensures
        n == creds@.len() * scripts@.len(),
        final(pool).queue@ == old(pool).queue@ + cred_attempts(creds@, scripts@),
        final(pool).inflight == old(pool).inflight + n,
        final(pool).num_threads == old(pool).num_threads,
        final(pool).paused == old(pool).paused,
        old(pool).wf() ==> final(pool).wf(),
{
    let ghost c: int = creds@.len() as int;
    let ghost s: int = scripts@.len() as int;
    let mut i: usize = 0;
    while i < creds.len()
        invariant
            i <= c,
            c == creds@.len(),
            s == scripts@.len(),
            c * s <= usize::MAX,
            old(pool).inflight + c * s <= usize::MAX,
            pool.queue@ == old(pool).queue@ + cred_attempts(creds@.take(i as int), scripts@),
            pool.inflight == old(pool).inflight + i * s,
            pool.num_threads == old(pool).num_threads,
            pool.paused == old(pool).paused,
            old(pool).wf() ==> pool.wf(),
        decreases c - i,
    {
        proof {
            assert(i * s + s <= c * s) by (nonlinear_arith)
                requires
                    0 <= i < c,
                    0 <= s,
            ;
        }
        let cred = &creds[i];
        submit_pair(pool, &cred.user, &cred.password, scripts);
        proof {
            assert(creds@.take(i + 1).drop_last() =~= creds@.take(i as int));
            assert(pool.queue@ =~= old(pool).queue@ + cred_attempts(creds@.take(i + 1), scripts@));
            assert(i * s + s == (i + 1) * s) by (nonlinear_arith);
        }
        i = i + 1;
    }
    proof {
        assert(creds@.take(c) =~= creds@);
    }
    creds.len() * scripts.len()
}

/// Confirmation mode: parse the credential list and submit every
/// credential against every script. A malformed line aborts before
/// anything is submitted; otherwise exactly |creds| × |scripts| attempts
/// are queued, in list order.
pub fn setup_credential_confirmation(
    pool: &mut Scheduler,
    lines: &Vec<String>,
    scripts: &Vec<Script>,
) -> (r: Result<usize, FormatError>)
    requires
        lines@.len() * scripts@.len() <= usize::MAX,
        old(pool).inflight + lines@.len() * scripts@.len() <= usize::MAX,
    ensures
        r is Ok <==> (forall|i: int| 0 <= i < lines@.len() ==> has_colon(lines@[i]@)),
        r matches Err(e) ==> final(pool).queue@ == old(pool).queue@ && final(pool).inflight == old(
            pool,
        ).inflight && (exists|i: int|
            0 <= i < lines@.len() && !has_colon(#[trigger] lines@[i]@) && e.line@ == lines@[i]@),
        r matches Ok(n) ==> n == lines@.len() * scripts@.len() && final(pool).inflight == old(
            pool,
        ).inflight + n && (exists|cs: Seq<Credential>|
            {
                &&& cs.len() == lines@.len()
                &&& (forall|i: int|
                    0 <= i < cs.len() ==> (#[trigger] cs[i]).user@ == cred_user(lines@[i]@) && cs[i].password@ == cred_password(lines@[i]@))
                &&& final(pool).queue@ == old(pool).queue@ + cred_attempts(cs, scripts@)
            }),
        final(pool).num_threads == old(pool).num_threads,
        final(pool).paused == old(pool).paused,
        old(pool).wf() ==> final(pool).wf(),
{
    match parse_credentials(lines) {
        Ok(creds) => {
            let n = submit_credentials(pool, &creds, scripts);
            proof {
                let cs = creds@;
                assert(cs.len() == lines@.len() && (forall|i: int|
                    0 <= i < cs.len() ==> (#[trigger] cs[i]).user@ == cred_user(lines@[i]@) && cs[i].password@ == cred_password(lines@[i]@)) && final(pool).queue@ == old(
                    pool,
                ).queue@ + cred_attempts(cs, scripts@));
            }
            Ok(n)
        },
        Err(e) => Err(e),
    }
}

} // verus!
