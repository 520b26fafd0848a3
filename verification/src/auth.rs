//! The authenticator state machine: drives the host service's primitive
//! operations in the mandated order, tracks the authenticated and
//! session-open flags, rolls back credentials on partial failure, and
//! populates the session environment.

use vstd::prelude::*;

use crate::codes::{spec_error_of, CredFlag, Error, Op, PamResult, ResultCode};
use crate::conv::{Conversation, PasswordConv};
use crate::service::{Service, UserView};

verus! {

/// Updates `name` in a service environment namespace only where the
/// namespace already defines it: session setup mirrors variables, it never
/// introduces new service-side ones.
pub open spec fn mirror(
    s: Map<Seq<char>, Seq<char>>,
    name: Seq<char>,
    value: Seq<char>,
) -> Map<Seq<char>, Seq<char>> {
    if s.contains_key(name) {
        s.insert(name, value)
    } else {
        s
    }
}

/// The five variables session setup derives from a user record, in the
/// order they are set.
pub open spec fn env_names(u: UserView) -> Seq<(Seq<char>, Seq<char>)> {
    seq![
        ("USER"@, u.name),
        ("LOGNAME"@, u.name),
        ("HOME"@, u.home),
        ("PWD"@, u.home),
        ("SHELL"@, u.shell),
    ]
}

/// The process environment after the first `k` of the pairs have been set.
pub open spec fn proc_after(
    p0: Map<Seq<char>, Seq<char>>,
    pairs: Seq<(Seq<char>, Seq<char>)>,
    k: int,
) -> Map<Seq<char>, Seq<char>>
    decreases k,
{
    if k <= 0 {
        p0
    } else {
        proc_after(p0, pairs, k - 1).insert(pairs[k - 1].0, pairs[k - 1].1)
    }
}

/// The service environment namespace after the first `k` of the pairs have
/// been mirrored.
pub open spec fn serv_after(
    s0: Map<Seq<char>, Seq<char>>,
    pairs: Seq<(Seq<char>, Seq<char>)>,
    k: int,
) -> Map<Seq<char>, Seq<char>>
    decreases k,
{
    if k <= 0 {
        s0
    } else {
        mirror(serv_after(s0, pairs, k - 1), pairs[k - 1].0, pairs[k - 1].1)
    }
}

/// The operation log grew only by environment writes.
pub open spec fn env_ops_only(pre: Seq<Op>, post: Seq<Op>) -> bool {
    &&& pre.is_prefix_of(post)
    &&& forall|i: int| pre.len() <= i < post.len() ==> (#[trigger] post[i]) is PutEnv
}

/// What environment initialization does, stated over the host maps alone:
/// an unresolvable user fails fatally and changes nothing; otherwise the
/// five variables are set in order, each one process-wide and, where the
/// service namespace already defines it, mirrored there too, stopping at
/// the first service-side write the host refuses.
pub open spec fn env_apply_post(
    db: Map<Seq<char>, UserView>,
    login: Seq<char>,
    s0: Map<Seq<char>, Seq<char>>,
    p0: Map<Seq<char>, Seq<char>>,
    s1: Map<Seq<char>, Seq<char>>,
    p1: Map<Seq<char>, Seq<char>>,
    r: PamResult<()>,
) -> bool {
    if !db.contains_key(login) {
        &&& r == Err::<(), Error>(Error::EnvironmentResolution)
        &&& s1 == s0
        &&& p1 == p0
    } else {
        let pairs = env_names(db[login]);
        ||| {
            &&& r == Ok::<(), Error>(())
            &&& p1 == proc_after(p0, pairs, 5)
            &&& s1 == serv_after(s0, pairs, 5)
        }
        ||| (exists|k: int|
            0 <= k < 5 && (#[trigger] serv_after(s0, pairs, k)) == s1 && p1 == proc_after(
                p0,
                pairs,
                k + 1,
            ) && s1.contains_key(pairs[k].0) && (exists|c: ResultCode|
                c != ResultCode::Success && r == Err::<(), Error>(spec_error_of(c))))
    }
}

proof fn lemma_env_ops_refl(l: Seq<Op>)
    ensures
        env_ops_only(l, l),
{
    assert(l =~= l.subrange(0, l.len() as int));
}

proof fn lemma_env_ops_push(l0: Seq<Op>, l1: Seq<Op>, c: ResultCode)
    requires
        env_ops_only(l0, l1),
    ensures
        env_ops_only(l0, l1.push(Op::PutEnv(c))),
{
    let l2 = l1.push(Op::PutEnv(c));
    assert(l0 =~= l2.subrange(0, l0.len() as int));
    assert forall|i: int| l0.len() <= i < l2.len() implies (#[trigger] l2[i]) is PutEnv by {
        if i < l1.len() {
            assert(l2[i] == l1[i]);
        } else {
            assert(l2[i] == Op::PutEnv(c));
        }
    }
}

/// The session object: owns the transaction with the host service and the
/// conversation bound to it, and orders the primitive operations.
///
/// Lifecycle: construct with [`Authenticator::with_password`] or
/// [`Authenticator::with_handler`], then [`Authenticator::authenticate`],
/// then [`Authenticator::open_session`]; teardown is the consuming
/// [`Authenticator::end`], which releases credentials and closes the
/// transaction exactly once (wrap the authenticator in a scope guard to run
/// it on every exit path).
pub struct Authenticator<C: Conversation, S: Service<C>> {
    /// Whether teardown closes an open session.
    pub close_on_drop: bool,
    service: S,
    conversation: C,
    authed: bool,
    opened: bool,
    last_code: ResultCode,
}

impl<C: Conversation, S: Service<C>> Authenticator<C, S> {
    /// Every primitive service operation issued so far, oldest first.
    pub closed spec fn log(&self) -> Seq<Op> {
        self.service.log()
    }

    /// The service's own environment namespace.
    pub closed spec fn service_env(&self) -> Map<Seq<char>, Seq<char>> {
        self.service.service_env()
    }

    /// The process-wide environment.
    pub closed spec fn process_env(&self) -> Map<Seq<char>, Seq<char>> {
        self.service.process_env()
    }

    /// The host user database.
    pub closed spec fn user_db(&self) -> Map<Seq<char>, UserView> {
        self.service.user_db()
    }

    /// The service names handed to the start operation.
    pub closed spec fn starts(&self) -> Seq<Seq<char>> {
        self.service.starts()
    }

    /// The name and value pairs handed to the service's environment-write
    /// operation.
    pub closed spec fn env_writes(&self) -> Seq<(Seq<char>, Seq<char>)> {
        self.service.env_writes()
    }

    /// True only after a successful authenticate and account check.
    pub closed spec fn authenticated(&self) -> bool {
        self.authed
    }

    /// True only after a fully successful open-session sequence.
    pub closed spec fn session_open(&self) -> bool {
        self.opened
    }

    /// Whether teardown will close an open session.
    pub closed spec fn closes_on_drop(&self) -> bool {
        self.close_on_drop
    }

    /// Reports whether a successful authenticate and account check has run.
    pub fn is_authenticated(&self) -> (b: bool)
        ensures
            b == self.authenticated(),
    {
        self.authed
    }

    /// Reports whether a fully successful open-session sequence has run.
    pub fn has_open_session(&self) -> (b: bool)
        ensures
            b == self.session_open(),
    {
        self.opened
    }

    /// The conversation bound to this transaction.
    pub closed spec fn spec_handler(&self) -> C {
        self.conversation
    }

    /// The login name the bound conversation reports.
    pub closed spec fn username(&self) -> Seq<char> {
        self.conversation.spec_username()
    }

    /// A session is open only for an authenticated user.
    pub open spec fn wf(&self) -> bool {
        self.session_open() ==> self.authenticated()
    }

    /// Creates an authenticator bound to the given conversation, issuing
    /// the start operation with the given service name on the given host.
    /// It succeeds exactly when the start operation reports success; a
    /// non-success start code is surfaced as its mapped error, together
    /// with the host, whose log shows the one failed start and nothing
    /// else issued.
    pub fn with_handler(backend: S, service: &str, conversation: C) -> (r: Result<
        Authenticator<C, S>,
        (Error, S),
    >)
        ensures
            r matches Ok(a) ==> ({
                &&& a.log() == backend.log().push(Op::Start(ResultCode::Success))
                &&& a.starts() == backend.starts().push(service@)
                &&& a.env_writes() == backend.env_writes()
                &&& a.service_env() == backend.service_env()
                &&& a.process_env() == backend.process_env()
                &&& a.user_db() == backend.user_db()
                &&& !a.authenticated()
                &&& !a.session_open()
                &&& a.closes_on_drop()
                &&& a.spec_handler() == conversation
                &&& a.wf()
            }),
            r matches Err(f) ==> ({
                &&& exists|c: ResultCode|
                    c != ResultCode::Success && f.1.log() == #[trigger] backend.log().push(
                        Op::Start(c),
                    ) && f.0 == spec_error_of(c)
                &&& f.1.starts() == backend.starts().push(service@)
                &&& f.1.env_writes() == backend.env_writes()
                &&& f.1.service_env() == backend.service_env()
                &&& f.1.process_env() == backend.process_env()
                &&& f.1.user_db() == backend.user_db()
            }),
    {
        let mut backend = backend;
        let code = backend.start(service);
        if code != ResultCode::Success {
            return Err((crate::codes::error_of(code), backend));
        }
        Ok(
            Authenticator {
                close_on_drop: true,
                service: backend,
                conversation,
                authed: false,
                opened: false,
                last_code: ResultCode::Success,
            },
        )
    }

    /// Immutable access to the conversation handler.
    pub fn handler(&self) -> (r: &C)
        ensures
            *r == self.spec_handler(),
    {
        &self.conversation
    }

    /// Mutable access to the conversation handler; nothing else changes.
    pub fn handler_mut(&mut self) -> (r: &mut C)
        ensures
            *r == old(self).spec_handler(),
            final(self).spec_handler() == *final(r),
            final(self).log() == old(self).log(),
            final(self).service_env() == old(self).service_env(),
            final(self).process_env() == old(self).process_env(),
            final(self).user_db() == old(self).user_db(),
            final(self).authenticated() == old(self).authenticated(),
            final(self).session_open() == old(self).session_open(),
            final(self).closes_on_drop() == old(self).closes_on_drop(),
    {
        &mut self.conversation
    }

    /// What one authenticate attempt does: the authenticate operation is
    /// issued and, only if it succeeds, the account check; a failing account
    /// check is followed by a credential rollback.  Success means exactly
    /// that both operations reported success.
    pub open spec fn authenticate_post(pre: Self, post: Self, r: PamResult<()>) -> bool {
        &&& post.service_env() == pre.service_env()
        &&& post.process_env() == pre.process_env()
        &&& post.user_db() == pre.user_db()
        &&& post.session_open() == pre.session_open()
        &&& post.closes_on_drop() == pre.closes_on_drop()
        &&& match r {
            Ok(_) => {
                &&& post.log() == pre.log().push(Op::Authenticate(ResultCode::Success)).push(
                    Op::AcctMgmt(ResultCode::Success),
                )
                &&& post.authenticated()
            },
            Err(e) => {
                ||| (exists|a: ResultCode|
                    a != ResultCode::Success && post.log() == pre.log().push(Op::Authenticate(a))
                        && e == spec_error_of(a) && post.authenticated() == pre.authenticated())
                ||| (exists|m: ResultCode, d: ResultCode|
                    m != ResultCode::Success && post.log() == pre.log().push(
                        Op::Authenticate(ResultCode::Success),
                    ).push(Op::AcctMgmt(m)).push(Op::SetCred(CredFlag::Delete, d)) && e
                        == spec_error_of(m) && post.authenticated() == pre.session_open())
            },
        }
    }

    /// Authenticates with the bound conversation: issues the authenticate
    /// operation, then the account check, rolling credentials back if the
    /// account is not permitted to proceed.  Starting unauthenticated, the
    /// flag becomes set if and only if both operations succeed.
    pub fn authenticate(&mut self) -> (r: PamResult<()>)
        ensures
            Self::authenticate_post(*old(self), *final(self), r),
            r is Ok ==> final(self).authenticated(),
            old(self).wf() && !old(self).authenticated() && r is Err
                ==> !final(self).authenticated(),
            old(self).wf() ==> final(self).wf(),
    {
        let code = self.service.authenticate(&mut self.conversation);
        self.last_code = code;
        if code != ResultCode::Success {
            return Err(crate::codes::error_of(code));
        }
        self.authed = true;
        let code = self.service.acct_mgmt();
        self.last_code = code;
        if code != ResultCode::Success {
            let ghost m = *self;
            let res = self.reset();
            proof {
                let d = choose|d: ResultCode|
                    self.log() == #[trigger] m.log().push(Op::SetCred(CredFlag::Delete, d));
                assert(self.log() == old(self).log().push(
                    Op::Authenticate(ResultCode::Success),
                ).push(Op::AcctMgmt(code)).push(Op::SetCred(CredFlag::Delete, d)));
            }
            return res;
        }
        Ok(())
    }

    /// Credential rollback: best-effort delete of the session credentials,
    /// surfacing the triggering code.  The authenticated flag is cleared —
    /// unless a session is open, which keeps its authentication, so that an
    /// open session never belongs to an unauthenticated user.
    fn reset(&mut self) -> (r: PamResult<()>)
        ensures
            exists|d: ResultCode|
                final(self).log() == #[trigger] old(self).log().push(
                    Op::SetCred(CredFlag::Delete, d),
                ),
            r == Err::<(), Error>(spec_error_of(old(self).last_code)),
            final(self).authenticated() == (old(self).session_open() && old(
                self,
            ).authenticated()),
            final(self).session_open() == old(self).session_open(),
            final(self).closes_on_drop() == old(self).closes_on_drop(),
            final(self).service_env() == old(self).service_env(),
            final(self).process_env() == old(self).process_env(),
            final(self).user_db() == old(self).user_db(),
            final(self).spec_handler() == old(self).spec_handler(),
            final(self).last_code == old(self).last_code,
    {
        let code = self.service.setcred(CredFlag::Delete);
        if !self.opened {
            self.authed = false;
        }
        proof {
            assert(self.log() == old(self).log().push(Op::SetCred(CredFlag::Delete, code)));
        }
        Err(crate::codes::error_of(self.last_code))
    }

    /// Sets one session variable: always process-wide; mirrored into the
    /// service namespace only where the namespace already defines it, and a
    /// refused mirror write is surfaced with nothing else changed.
    fn set_env(&mut self, key: &str, value: &str) -> (r: PamResult<()>)
        ensures
            final(self).process_env() == old(self).process_env().insert(key@, value@),
            r is Ok ==> final(self).service_env() == mirror(old(self).service_env(), key@, value@),
            r is Ok && old(self).service_env().contains_key(key@) ==> final(self).log() == old(
                self,
            ).log().push(Op::PutEnv(ResultCode::Success)),
            r is Ok && !old(self).service_env().contains_key(key@) ==> final(self).log() == old(
                self,
            ).log(),
            r matches Err(e) ==> ({
                &&& exists|c: ResultCode|
                    c != ResultCode::Success && e == spec_error_of(c) && final(self).log()
                        == #[trigger] old(self).log().push(Op::PutEnv(c))
                &&& old(self).service_env().contains_key(key@)
                &&& final(self).service_env() == old(self).service_env()
            }),
            old(self).service_env().contains_key(key@) ==> final(self).env_writes() == old(
                self,
            ).env_writes().push((key@, value@)),
            !old(self).service_env().contains_key(key@) ==> final(self).env_writes() == old(
                self,
            ).env_writes(),
            final(self).starts() == old(self).starts(),
            final(self).authenticated() == old(self).authenticated(),
            final(self).session_open() == old(self).session_open(),
            final(self).closes_on_drop() == old(self).closes_on_drop(),
            final(self).user_db() == old(self).user_db(),
            final(self).spec_handler() == old(self).spec_handler(),
            final(self).last_code == old(self).last_code,
    {
        self.service.set_process_env(key, value);
        let defined = match self.service.getenv(key) {
            Some(_) => true,
            None => false,
        };
        if defined {
            let code = self.service.putenv(key, value);
            if code == ResultCode::Success {
                Ok(())
            } else {
                proof {
                    assert(self.log() == old(self).log().push(Op::PutEnv(code)));
                }
                Err(crate::codes::error_of(code))
            }
        } else {
            Ok(())
        }
    }

    /// What environment initialization does to the whole authenticator: the
    /// flags are untouched, the log grows only by environment writes, and
    /// the host maps change as [`env_apply_post`] states for the
    /// conversation's login name.
    pub open spec fn env_init_post(pre: Self, post: Self, r: PamResult<()>) -> bool {
        &&& post.authenticated() == pre.authenticated()
        &&& post.session_open() == pre.session_open()
        &&& post.closes_on_drop() == pre.closes_on_drop()
        &&& post.user_db() == pre.user_db()
        &&& post.username() == pre.username()
        &&& post.spec_handler() == pre.spec_handler()
        &&& env_ops_only(pre.log(), post.log())
        &&& env_apply_post(
            pre.user_db(),
            pre.username(),
            pre.service_env(),
            pre.process_env(),
            post.service_env(),
            post.process_env(),
            r,
        )
    }

    /// Populates the session environment from the host user record of the
    /// conversation's login name.  An unresolvable user is fatal and
    /// changes nothing.
    fn initialize_environment(&mut self) -> (r: PamResult<()>)
        ensures
            Self::env_init_post(*old(self), *final(self), r),
    {
        let ghost pre = *self;
        let name = self.conversation.username();
        let found = self.service.lookup_user(name.as_str());
        let user = match found {
            Some(u) => u,
            None => {
                proof {
                    lemma_env_ops_refl(pre.log());
                }
                return Err(Error::EnvironmentResolution);
            },
        };
        let ghost u = user@;
        let ghost pairs = env_names(u);
        let ghost s0 = pre.service_env();
        let ghost p0 = pre.process_env();
        proof {
            assert(u == pre.user_db()[pre.username()]);
            assert(proc_after(p0, pairs, 0) == p0);
            assert(serv_after(s0, pairs, 0) == s0);
            lemma_env_ops_refl(pre.log());
        }
        let ghost m0 = *self;
        let r0 = self.set_env("USER", user.name.as_str());
        proof {
            assert(pairs[0] == ("USER"@, u.name));
            assert(self.process_env() == proc_after(p0, pairs, 1));
        }
        match r0 {
            Err(e) => {
                proof {
                    let c = choose|c: ResultCode|
                        c != ResultCode::Success && e == spec_error_of(c) && self.log()
                            == #[trigger] m0.log().push(Op::PutEnv(c));
                    lemma_env_ops_push(pre.log(), m0.log(), c);
                    assert(self.service_env() == serv_after(s0, pairs, 0));
                }
                return Err(e);
            },
            Ok(_) => {
                proof {
                    assert(self.service_env() == serv_after(s0, pairs, 1));
                    if m0.service_env().contains_key(pairs[0].0) {
                        lemma_env_ops_push(pre.log(), m0.log(), ResultCode::Success);
                    }
                    assert(env_ops_only(pre.log(), self.log()));
                }
            },
        }
        let ghost m1 = *self;
        let r1 = self.set_env("LOGNAME", user.name.as_str());
        proof {
            assert(pairs[1] == ("LOGNAME"@, u.name));
            assert(self.process_env() == proc_after(p0, pairs, 2));
        }
        match r1 {
            Err(e) => {
                proof {
                    let c = choose|c: ResultCode|
                        c != ResultCode::Success && e == spec_error_of(c) && self.log()
                            == #[trigger] m1.log().push(Op::PutEnv(c));
                    lemma_env_ops_push(pre.log(), m1.log(), c);
                    assert(self.service_env() == serv_after(s0, pairs, 1));
                }
                return Err(e);
            },
            Ok(_) => {
                proof {
                    assert(self.service_env() == serv_after(s0, pairs, 2));
                    if m1.service_env().contains_key(pairs[1].0) {
                        lemma_env_ops_push(pre.log(), m1.log(), ResultCode::Success);
                    }
                    assert(env_ops_only(pre.log(), self.log()));
                }
            },
        }
        let ghost m2 = *self;
        let r2 = self.set_env("HOME", user.home.as_str());
        proof {
            assert(pairs[2] == ("HOME"@, u.home));
            assert(self.process_env() == proc_after(p0, pairs, 3));
        }
        match r2 {
            Err(e) => {
                proof {
                    let c = choose|c: ResultCode|
                        c != ResultCode::Success && e == spec_error_of(c) && self.log()
                            == #[trigger] m2.log().push(Op::PutEnv(c));
                    lemma_env_ops_push(pre.log(), m2.log(), c);
                    assert(self.service_env() == serv_after(s0, pairs, 2));
                }
                return Err(e);
            },
            Ok(_) => {
                proof {
                    assert(self.service_env() == serv_after(s0, pairs, 3));
                    if m2.service_env().contains_key(pairs[2].0) {
                        lemma_env_ops_push(pre.log(), m2.log(), ResultCode::Success);
                    }
                    assert(env_ops_only(pre.log(), self.log()));
                }
            },
        }
        let ghost m3 = *self;
        let r3 = self.set_env("PWD", user.home.as_str());
        proof {
            assert(pairs[3] == ("PWD"@, u.home));
            assert(self.process_env() == proc_after(p0, pairs, 4));
        }
        match r3 {
            Err(e) => {
                proof {
                    let c = choose|c: ResultCode|
                        c != ResultCode::Success && e == spec_error_of(c) && self.log()
                            == #[trigger] m3.log().push(Op::PutEnv(c));
                    lemma_env_ops_push(pre.log(), m3.log(), c);
                    assert(self.service_env() == serv_after(s0, pairs, 3));
                }
                return Err(e);
            },
            Ok(_) => {
                proof {
                    assert(self.service_env() == serv_after(s0, pairs, 4));
                    if m3.service_env().contains_key(pairs[3].0) {
                        lemma_env_ops_push(pre.log(), m3.log(), ResultCode::Success);
                    }
                    assert(env_ops_only(pre.log(), self.log()));
                }
            },
        }
        let ghost m4 = *self;
        let r4 = self.set_env("SHELL", user.shell.as_str());
        proof {
            assert(pairs[4] == ("SHELL"@, u.shell));
            assert(self.process_env() == proc_after(p0, pairs, 5));
        }
        match r4 {
            Err(e) => {
                proof {
                    let c = choose|c: ResultCode|
                        c != ResultCode::Success && e == spec_error_of(c) && self.log()
                            == #[trigger] m4.log().push(Op::PutEnv(c));
                    lemma_env_ops_push(pre.log(), m4.log(), c);
                    assert(self.service_env() == serv_after(s0, pairs, 4));
                }
                return Err(e);
            },
            Ok(_) => {
                proof {
                    assert(self.service_env() == serv_after(s0, pairs, 5));
                    if m4.service_env().contains_key(pairs[4].0) {
                        lemma_env_ops_push(pre.log(), m4.log(), ResultCode::Success);
                    }
                    assert(env_ops_only(pre.log(), self.log()));
                }
            },
        }
        Ok(())
    }

    /// What one open-session attempt does.  Unauthenticated, it fails with
    /// the not-authenticated error and issues nothing.  Otherwise the
    /// sequence is establish-credentials, open-session,
    /// reinitialize-credentials, in that order; the first failing step is
    /// followed by a credential rollback and nothing later runs; full
    /// success marks the session open and then populates the environment,
    /// whose failure is surfaced while the session stays open.
    pub open spec fn open_session_post(pre: Self, post: Self, r: PamResult<()>) -> bool {
        if !pre.authenticated() {
            &&& r == Err::<(), Error>(Error::NotAuthenticated)
            &&& post == pre
        } else {
            &&& post.closes_on_drop() == pre.closes_on_drop()
            &&& post.user_db() == pre.user_db()
            &&& ({
                ||| (exists|c: ResultCode, d: ResultCode|
                    #![trigger pre.log().push(Op::SetCred(CredFlag::Establish, c)).push(Op::SetCred(CredFlag::Delete, d))]
                    c != ResultCode::Success && post.log() == pre.log().push(
                        Op::SetCred(CredFlag::Establish, c),
                    ).push(Op::SetCred(CredFlag::Delete, d)) && r == Err::<(), Error>(
                        spec_error_of(c),
                    ) && post.authenticated() == (pre.session_open() && pre.authenticated())
                        && post.session_open() == pre.session_open()
                        && post.service_env() == pre.service_env() && post.process_env()
                        == pre.process_env())
                ||| (exists|c: ResultCode, d: ResultCode|
                    #![trigger pre.log().push(Op::SetCred(CredFlag::Establish, ResultCode::Success)).push(Op::OpenSession(c)).push(Op::SetCred(CredFlag::Delete, d))]
                    c != ResultCode::Success && post.log() == pre.log().push(
                        Op::SetCred(CredFlag::Establish, ResultCode::Success),
                    ).push(Op::OpenSession(c)).push(Op::SetCred(CredFlag::Delete, d)) && r
                        == Err::<(), Error>(spec_error_of(c)) && post.authenticated() == (
                    pre.session_open() && pre.authenticated())
                        && post.session_open() == pre.session_open() && post.service_env()
                        == pre.service_env() && post.process_env() == pre.process_env())
                ||| (exists|c: ResultCode, d: ResultCode|
                    #![trigger pre.log().push(Op::SetCred(CredFlag::Establish, ResultCode::Success)).push(Op::OpenSession(ResultCode::Success)).push(Op::SetCred(CredFlag::Reinitialize, c)).push(Op::SetCred(CredFlag::Delete, d))]
                    c != ResultCode::Success && post.log() == pre.log().push(
                        Op::SetCred(CredFlag::Establish, ResultCode::Success),
                    ).push(Op::OpenSession(ResultCode::Success)).push(
                        Op::SetCred(CredFlag::Reinitialize, c),
                    ).push(Op::SetCred(CredFlag::Delete, d)) && r == Err::<(), Error>(
                        spec_error_of(c),
                    ) && post.authenticated() == (pre.session_open() && pre.authenticated())
                        && post.session_open() == pre.session_open()
                        && post.service_env() == pre.service_env() && post.process_env()
                        == pre.process_env())
                ||| ({
                    let mid_log = pre.log().push(
                        Op::SetCred(CredFlag::Establish, ResultCode::Success),
                    ).push(Op::OpenSession(ResultCode::Success)).push(
                        Op::SetCred(CredFlag::Reinitialize, ResultCode::Success),
                    );
                    &&& post.session_open()
                    &&& post.authenticated()
                    &&& post.username() == pre.username()
                    &&& post.spec_handler() == pre.spec_handler()
                    &&& env_ops_only(mid_log, post.log())
                    &&& env_apply_post(
                        pre.user_db(),
                        pre.username(),
                        pre.service_env(),
                        pre.process_env(),
                        post.service_env(),
                        post.process_env(),
                        r,
                    )
                })
            })
        }
    }

    /// Opens a session for a previously authenticated user and populates
    /// the session environment, in the service namespace and the
    /// process-wide one.  Called unauthenticated it fails immediately,
    /// issuing no primitive operation.
    pub fn open_session(&mut self) -> (r: PamResult<()>)
        ensures
            Self::open_session_post(*old(self), *final(self), r),
            !old(self).authenticated() ==> (r == Err::<(), Error>(Error::NotAuthenticated)
                && final(self).log() == old(self).log()),
            old(self).wf() ==> final(self).wf(),
    {
        let ghost pre = *self;
        if !self.authed {
            return Err(Error::NotAuthenticated);
        }
        let code = self.service.setcred(CredFlag::Establish);
        self.last_code = code;
        if code != ResultCode::Success {
            let ghost m = *self;
            let res = self.reset();
            proof {
                let d = choose|d: ResultCode|
                    self.log() == #[trigger] m.log().push(Op::SetCred(CredFlag::Delete, d));
                assert(self.log() == pre.log().push(Op::SetCred(CredFlag::Establish, code)).push(
                    Op::SetCred(CredFlag::Delete, d),
                ));
            }
            return res;
        }
        let code = self.service.open_session();
        self.last_code = code;
        if code != ResultCode::Success {
            let ghost m = *self;
            let res = self.reset();
            proof {
                let d = choose|d: ResultCode|
                    self.log() == #[trigger] m.log().push(Op::SetCred(CredFlag::Delete, d));
                assert(self.log() == pre.log().push(
                    Op::SetCred(CredFlag::Establish, ResultCode::Success),
                ).push(Op::OpenSession(code)).push(Op::SetCred(CredFlag::Delete, d)));
            }
            return res;
        }
        let code = self.service.setcred(CredFlag::Reinitialize);
        self.last_code = code;
        if code != ResultCode::Success {
            let ghost m = *self;
            let res = self.reset();
            proof {
                let d = choose|d: ResultCode|
                    self.log() == #[trigger] m.log().push(Op::SetCred(CredFlag::Delete, d));
                assert(self.log() == pre.log().push(
                    Op::SetCred(CredFlag::Establish, ResultCode::Success),
                ).push(Op::OpenSession(ResultCode::Success)).push(
                    Op::SetCred(CredFlag::Reinitialize, code),
                ).push(Op::SetCred(CredFlag::Delete, d)));
            }
            return res;
        }
        self.opened = true;
        let ghost mid = *self;
        let res = self.initialize_environment();
        proof {
            assert(Self::env_init_post(mid, *self, res));
        }
        res
    }

    /// Teardown: if a session is open and the policy flag says so, closes
    /// it; then unconditionally deletes the session credentials and ends
    /// the transaction with the code the deletion reported.  Consumes the
    /// authenticator, so teardown happens exactly once; the host is handed
    /// back for inspection.  Teardown errors are not surfaced.
    pub fn end(self) -> (host: S)
        ensures
            self.session_open() && self.closes_on_drop() ==> (exists|c: ResultCode, d: ResultCode|
                #![trigger self.log().push(Op::CloseSession(c)).push(Op::SetCred(CredFlag::Delete, d)).push(Op::End(d))]
                host.log() == self.log().push(Op::CloseSession(c)).push(
                    Op::SetCred(CredFlag::Delete, d),
                ).push(Op::End(d))),
            !(self.session_open() && self.closes_on_drop()) ==> (exists|d: ResultCode|
                host.log() == #[trigger] self.log().push(Op::SetCred(CredFlag::Delete, d)).push(
                    Op::End(d),
                )),
            host.service_env() == self.service_env(),
            host.process_env() == self.process_env(),
            host.user_db() == self.user_db(),
    {
        let ghost l0 = self.log();
        let Authenticator { close_on_drop, mut service, opened, .. } = self;
        if opened && close_on_drop {
            let c = service.close_session();
            let d = service.setcred(CredFlag::Delete);
            let _ = service.end(d);
            proof {
                assert(service.log() == l0.push(Op::CloseSession(c)).push(
                    Op::SetCred(CredFlag::Delete, d),
                ).push(Op::End(d)));
            }
            service
        } else {
            let d = service.setcred(CredFlag::Delete);
            let _ = service.end(d);
            proof {
                assert(service.log() == l0.push(Op::SetCred(CredFlag::Delete, d)).push(Op::End(d)));
            }
            service
        }
    }

    /// Repeat authentication is idempotent: a second successful attempt
    /// leaves the authenticated flag set, with no state corruption from
    /// the repeat call.
    pub proof fn lemma_authenticate_idempotent(
        a0: Self,
        a1: Self,
        a2: Self,
        r1: PamResult<()>,
        r2: PamResult<()>,
    )
        requires
            Self::authenticate_post(a0, a1, r1),
            r1 is Ok,
            Self::authenticate_post(a1, a2, r2),
            r2 is Ok,
        ensures
            a1.authenticated(),
            a2.authenticated(),
            a2.session_open() == a0.session_open(),
            a2.service_env() == a0.service_env(),
            a2.process_env() == a0.process_env(),
    {
    }
}

impl<S: Service<PasswordConv>> Authenticator<PasswordConv, S> {
    /// Creates an authenticator with the default static credential
    /// conversation, whose login and secret start empty and are preset
    /// through [`Authenticator::handler_mut`].
    pub fn with_password(backend: S, service: &str) -> (r: Result<
        Authenticator<PasswordConv, S>,
        (Error, S),
    >)
        ensures
            r matches Ok(a) ==> ({
                &&& a.log() == backend.log().push(Op::Start(ResultCode::Success))
                &&& a.starts() == backend.starts().push(service@)
                &&& a.env_writes() == backend.env_writes()
                &&& a.service_env() == backend.service_env()
                &&& a.process_env() == backend.process_env()
                &&& a.user_db() == backend.user_db()
                &&& !a.authenticated()
                &&& !a.session_open()
                &&& a.closes_on_drop()
                &&& a.spec_handler().spec_login() == Seq::<char>::empty()
                &&& a.spec_handler().spec_password() == Seq::<char>::empty()
            }),
            r matches Err(f) ==> ({
                &&& exists|c: ResultCode|
                    c != ResultCode::Success && f.1.log() == #[trigger] backend.log().push(
                        Op::Start(c),
                    ) && f.0 == spec_error_of(c)
                &&& f.1.starts() == backend.starts().push(service@)
                &&& f.1.env_writes() == backend.env_writes()
                &&& f.1.service_env() == backend.service_env()
                &&& f.1.process_env() == backend.process_env()
                &&& f.1.user_db() == backend.user_db()
            }),
    {
        Authenticator::with_handler(backend, service, PasswordConv::new())
    }
}

/// Short-circuit law: when the establish-credentials step fails, the
/// operations issued after it are only the credential rollback — neither
/// the open-session primitive nor a credential reinitialization runs.
pub proof fn lemma_establish_failure_short_circuit(
    pre: Seq<Op>,
    post: Seq<Op>,
    c: ResultCode,
    d: ResultCode,
)
    requires
        c != ResultCode::Success,
        post == pre.push(Op::SetCred(CredFlag::Establish, c)).push(Op::SetCred(CredFlag::Delete, d)),
    ensures
        forall|i: int|
            pre.len() <= i < post.len() ==> !((#[trigger] post[i]) is OpenSession) && !(post[i]
                matches Op::SetCred(CredFlag::Reinitialize, _)),
{
    assert forall|i: int|
        pre.len() <= i < post.len() implies !((#[trigger] post[i]) is OpenSession) && !(post[i]
        matches Op::SetCred(CredFlag::Reinitialize, _)) by {
        if i == pre.len() {
            assert(post[i] == Op::SetCred(CredFlag::Establish, c));
        } else {
            assert(i == pre.len() + 1);
            assert(post[i] == Op::SetCred(CredFlag::Delete, d));
        }
    }
}

/// Number of end operations in a log.
pub open spec fn count_end(s: Seq<Op>) -> nat
    decreases s.len(),
{
    if s.len() == 0 {
        0
    } else {
        count_end(s.drop_last()) + (if s.last() is End {
            1nat
        } else {
            0nat
        })
    }
}

/// Number of delete-credentials operations in a log.
pub open spec fn count_delete_cred(s: Seq<Op>) -> nat
    decreases s.len(),
{
    if s.len() == 0 {
        0
    } else {
        count_delete_cred(s.drop_last()) + (if s.last() matches Op::SetCred(CredFlag::Delete, _) {
            1nat
        } else {
            0nat
        })
    }
}

/// Number of close-session operations in a log.
pub open spec fn count_close_session(s: Seq<Op>) -> nat
    decreases s.len(),
{
    if s.len() == 0 {
        0
    } else {
        count_close_session(s.drop_last()) + (if s.last() is CloseSession {
            1nat
        } else {
            0nat
        })
    }
}

proof fn lemma_counts_push(s: Seq<Op>, op: Op)
    ensures
        count_end(s.push(op)) == count_end(s) + (if op is End {
            1nat
        } else {
            0nat
        }),
        count_delete_cred(s.push(op)) == count_delete_cred(s) + (if op matches Op::SetCred(
            CredFlag::Delete,
            _,
        ) {
            1nat
        } else {
            0nat
        }),
        count_close_session(s.push(op)) == count_close_session(s) + (if op is CloseSession {
            1nat
        } else {
            0nat
        }),
{
    assert(s.push(op).drop_last() =~= s);
    assert(s.push(op).last() == op);
}

/// Teardown law: teardown issues delete-credentials and end exactly once
/// each, and close-session exactly once if and only if a session was open
/// and the close policy flag was set.
pub proof fn lemma_teardown_counts(
    pre: Seq<Op>,
    post: Seq<Op>,
    closing: bool,
    c: ResultCode,
    d: ResultCode,
)
    requires
        closing ==> post == pre.push(Op::CloseSession(c)).push(Op::SetCred(CredFlag::Delete, d)).push(
            Op::End(d),
        ),
        !closing ==> post == pre.push(Op::SetCred(CredFlag::Delete, d)).push(Op::End(d)),
    ensures
        count_end(post) == count_end(pre) + 1,
        count_delete_cred(post) == count_delete_cred(pre) + 1,
        count_close_session(post) == count_close_session(pre) + (if closing {
            1nat
        } else {
            0nat
        }),
{
    if closing {
        let l1 = pre.push(Op::CloseSession(c));
        let l2 = l1.push(Op::SetCred(CredFlag::Delete, d));
        lemma_counts_push(pre, Op::CloseSession(c));
        lemma_counts_push(l1, Op::SetCred(CredFlag::Delete, d));
        lemma_counts_push(l2, Op::End(d));
    } else {
        let l1 = pre.push(Op::SetCred(CredFlag::Delete, d));
        lemma_counts_push(pre, Op::SetCred(CredFlag::Delete, d));
        lemma_counts_push(l1, Op::End(d));
    }
}

proof fn lemma_mirror_facts(s: Map<Seq<char>, Seq<char>>, name: Seq<char>, value: Seq<char>)
    ensures
        forall|k: Seq<char>|
            #[trigger] mirror(s, name, value).contains_key(k) <==> s.contains_key(k),
        s.contains_key(name) ==> mirror(s, name, value)[name] == value,
        forall|k: Seq<char>|
            k != name && s.contains_key(k) ==> #[trigger] mirror(s, name, value)[k] == s[k],
{
}

/// Environment mirroring law: after environment initialization succeeds
/// for a resolvable user, a service-side variable that was already
/// defined — here the home directory — now carries the user record's
/// value; one the service did not define — here the shell — has not been
/// introduced service-side, while its process-wide variable is set.
pub proof fn lemma_env_mirroring(
    db: Map<Seq<char>, UserView>,
    login: Seq<char>,
    s0: Map<Seq<char>, Seq<char>>,
    p0: Map<Seq<char>, Seq<char>>,
    s1: Map<Seq<char>, Seq<char>>,
    p1: Map<Seq<char>, Seq<char>>,
    r: PamResult<()>,
)
    requires
        db.contains_key(login),
        env_apply_post(db, login, s0, p0, s1, p1, r),
        r == Ok::<(), Error>(()),
    ensures
        s0.contains_key("HOME"@) ==> s1.contains_key("HOME"@) && s1["HOME"@] == db[login].home,
        !s0.contains_key("SHELL"@) ==> !s1.contains_key("SHELL"@),
        p1.contains_key("SHELL"@) && p1["SHELL"@] == db[login].shell,
{
    let u = db[login];
    let pairs = env_names(u);
    assert(p1 == proc_after(p0, pairs, 5) && s1 == serv_after(s0, pairs, 5));
    reveal_strlit("USER");
    reveal_strlit("LOGNAME");
    reveal_strlit("HOME");
    reveal_strlit("PWD");
    reveal_strlit("SHELL");
    assert(pairs[0] == ("USER"@, u.name));
    assert(pairs[1] == ("LOGNAME"@, u.name));
    assert(pairs[2] == ("HOME"@, u.home));
    assert(pairs[3] == ("PWD"@, u.home));
    assert(pairs[4] == ("SHELL"@, u.shell));
    let q0 = serv_after(s0, pairs, 0);
    let q1 = serv_after(s0, pairs, 1);
    let q2 = serv_after(s0, pairs, 2);
    let q3 = serv_after(s0, pairs, 3);
    let q4 = serv_after(s0, pairs, 4);
    let q5 = serv_after(s0, pairs, 5);
    assert(q0 == s0);
    assert(q1 == mirror(q0, "USER"@, u.name));
    assert(q2 == mirror(q1, "LOGNAME"@, u.name));
    assert(q3 == mirror(q2, "HOME"@, u.home));
    assert(q4 == mirror(q3, "PWD"@, u.home));
    assert(q5 == mirror(q4, "SHELL"@, u.shell));
    lemma_mirror_facts(q0, "USER"@, u.name);
    lemma_mirror_facts(q1, "LOGNAME"@, u.name);
    lemma_mirror_facts(q2, "HOME"@, u.home);
    lemma_mirror_facts(q3, "PWD"@, u.home);
    lemma_mirror_facts(q4, "SHELL"@, u.shell);
    let w0 = proc_after(p0, pairs, 0);
    let w1 = proc_after(p0, pairs, 1);
    let w2 = proc_after(p0, pairs, 2);
    let w3 = proc_after(p0, pairs, 3);
    let w4 = proc_after(p0, pairs, 4);
    let w5 = proc_after(p0, pairs, 5);
    assert(w0 == p0);
    assert(w5 == w4.insert("SHELL"@, u.shell));
    assert("PWD"@.len() == 3);
    assert("HOME"@.len() == 4);
    assert("SHELL"@.len() == 5);
    assert("PWD"@ != "HOME"@);
    assert("SHELL"@ != "HOME"@);
}

} // verus!
