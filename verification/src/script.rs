//! A verified in-memory host: primitive operations answer from a scripted
//! queue of result codes, the environments and the user database are plain
//! maps, and every operation is recorded.  The test suite drives the
//! authenticator against it and inspects the recorded operations.

use vstd::prelude::*;

use vstd::hash_map::StringHashMap;
use vstd::string::StringExecFns;

use crate::codes::{CredFlag, Op, ResultCode};
use crate::conv::{Conversation, PromptKind, Response};
use crate::service::{Service, ServiceState, UserRecord, UserView};

verus! {

/// Mapping a function over the values of a map commutes with inserting one
/// binding.
proof fn lemma_map_values_insert<V, W>(m: Map<Seq<char>, V>, k: Seq<char>, v: V, f: spec_fn(V) -> W)
    ensures
        m.insert(k, v).map_values(f) == m.map_values(f).insert(k, f(v)),
{
    assert(m.insert(k, v).map_values(f) =~= m.map_values(f).insert(k, f(v)));
}

/// An in-memory stand-in for the host: each primitive operation consumes the
/// next scripted result code (or reports an abort once the script is
/// exhausted), records itself, and touches the environment maps exactly as
/// the [`Service`] contracts state.  Authentication converses: it prompts
/// for a login and a secret and keeps the answers for inspection.
pub struct ScriptedService {
    codes: Vec<ResultCode>,
    next: usize,
    calls: Vec<Op>,
    env: StringHashMap<String>,
    process: StringHashMap<String>,
    users: StringHashMap<UserRecord>,
    received: Vec<Response>,
    started: Ghost<Seq<Seq<char>>>,
    written: Ghost<Seq<(Seq<char>, Seq<char>)>>,
}

impl ServiceState for ScriptedService {
    closed spec fn log(&self) -> Seq<Op> {
        self.calls@
    }

    closed spec fn service_env(&self) -> Map<Seq<char>, Seq<char>> {
        self.env@.map_values(|v: String| v@)
    }

    closed spec fn process_env(&self) -> Map<Seq<char>, Seq<char>> {
        self.process@.map_values(|v: String| v@)
    }

    closed spec fn user_db(&self) -> Map<Seq<char>, UserView> {
        self.users@.map_values(|u: UserRecord| u@)
    }

    closed spec fn starts(&self) -> Seq<Seq<char>> {
        self.started@
    }

    closed spec fn env_writes(&self) -> Seq<(Seq<char>, Seq<char>)> {
        self.written@
    }
}

impl ScriptedService {
    /// The answers the conversation gave during the latest authenticate
    /// operation.
    pub closed spec fn spec_received(&self) -> Seq<Response> {
        self.received@
    }

    /// A host with an empty script, empty environments, an empty user
    /// database and nothing recorded.
    pub fn new() -> (s: ScriptedService)
        ensures
            s.log() == Seq::<Op>::empty(),
            s.service_env() == Map::<Seq<char>, Seq<char>>::empty(),
            s.process_env() == Map::<Seq<char>, Seq<char>>::empty(),
            s.user_db() == Map::<Seq<char>, UserView>::empty(),
            s.starts() == Seq::<Seq<char>>::empty(),
            s.env_writes() == Seq::<(Seq<char>, Seq<char>)>::empty(),
    {
        let s = ScriptedService {
            codes: Vec::new(),
            next: 0,
            calls: Vec::new(),
            env: StringHashMap::new(),
            process: StringHashMap::new(),
            users: StringHashMap::new(),
            received: Vec::new(),
            started: Ghost(Seq::empty()),
            written: Ghost(Seq::empty()),
        };
        proof {
            assert(s.service_env() =~= Map::<Seq<char>, Seq<char>>::empty());
            assert(s.process_env() =~= Map::<Seq<char>, Seq<char>>::empty());
            assert(s.user_db() =~= Map::<Seq<char>, UserView>::empty());
        }
        s
    }

    /// Appends one result code to the script; the next unanswered primitive
    /// operation will return it.
    pub fn enqueue(&mut self, code: ResultCode)
        ensures
            final(self).log() == old(self).log(),
            final(self).service_env() == old(self).service_env(),
            final(self).process_env() == old(self).process_env(),
            final(self).user_db() == old(self).user_db(),
    {
        self.codes.push(code);
    }

    /// Defines one variable of the service's environment namespace, as the
    /// host may before the transaction runs.
    pub fn define_env(&mut self, name: &str, value: &str)
        ensures
            final(self).service_env() == old(self).service_env().insert(name@, value@),
            final(self).log() == old(self).log(),
            final(self).process_env() == old(self).process_env(),
            final(self).user_db() == old(self).user_db(),
    {
        let val = String::from_str(value);
        proof {
            lemma_map_values_insert(self.env@, name@, val, |v: String| v@);
        }
        self.env.insert(String::from_str(name), val);
    }

    /// Adds one user record to the host user database, keyed by its login
    /// name.
    pub fn add_user(&mut self, user: UserRecord)
        ensures
            final(self).user_db() == old(self).user_db().insert(user@.name, user@),
            final(self).log() == old(self).log(),
            final(self).service_env() == old(self).service_env(),
            final(self).process_env() == old(self).process_env(),
    {
        proof {
            lemma_map_values_insert(self.users@, user.name@, user, |u: UserRecord| u@);
        }
        let key = user.name.clone();
        self.users.insert(key, user);
    }

    /// The operations recorded so far, oldest first.
    pub fn ops(&self) -> (r: &Vec<Op>)
        ensures
            r@ == self.log(),
    {
        &self.calls
    }

    /// The answers the conversation gave during the latest authenticate
    /// operation.
    pub fn responses(&self) -> (r: &Vec<Response>)
        ensures
            r@ == self.spec_received(),
    {
        &self.received
    }

    /// Reads one variable of the service's environment namespace.
    pub fn service_value(&self, name: &str) -> (value: Option<&String>)
        ensures
            value is Some <==> self.service_env().contains_key(name@),
            value matches Some(v) ==> v@ == self.service_env()[name@],
    {
        self.env.get(name)
    }

    /// Reads one process-wide environment variable.
    pub fn process_value(&self, name: &str) -> (value: Option<&String>)
        ensures
            value is Some <==> self.process_env().contains_key(name@),
            value matches Some(v) ==> v@ == self.process_env()[name@],
    {
        self.process.get(name)
    }

    /// Consumes the next scripted code; an exhausted script aborts.
    fn take_code(&mut self) -> (code: ResultCode)
        ensures
            final(self).log() == old(self).log(),
            final(self).service_env() == old(self).service_env(),
            final(self).process_env() == old(self).process_env(),
            final(self).user_db() == old(self).user_db(),
            final(self).starts() == old(self).starts(),
            final(self).env_writes() == old(self).env_writes(),
            final(self).spec_received() == old(self).spec_received(),
    {
        if self.next < self.codes.len() {
            let code = self.codes[self.next];
            self.next = self.next + 1;
            code
        } else {
            ResultCode::Abort
        }
    }

    /// Records one operation.
    fn record(&mut self, op: Op)
        ensures
            final(self).log() == old(self).log().push(op),
            final(self).service_env() == old(self).service_env(),
            final(self).process_env() == old(self).process_env(),
            final(self).user_db() == old(self).user_db(),
            final(self).starts() == old(self).starts(),
            final(self).env_writes() == old(self).env_writes(),
    {
        self.calls.push(op);
    }
}

impl<C: Conversation> Service<C> for ScriptedService {
    fn start(&mut self, service: &str) -> (code: ResultCode) {
        let code = self.take_code();
        self.record(Op::Start(code));
        proof {
            self.started@ = self.started@.push(service@);
        }
        code
    }

    fn authenticate(&mut self, conversation: &mut C) -> (code: ResultCode) {
        let mut prompts: Vec<(PromptKind, String)> = Vec::new();
        prompts.push((PromptKind::EchoOn, String::from_str("login:")));
        prompts.push((PromptKind::EchoOff, String::from_str("Password:")));
        let code = match conversation.converse(&prompts) {
            Ok(given) => {
                self.received = given;
                self.take_code()
            },
            Err(_) => ResultCode::ConvErr,
        };
        self.record(Op::Authenticate(code));
        code
    }

    fn acct_mgmt(&mut self) -> (code: ResultCode) {
        let code = self.take_code();
        self.record(Op::AcctMgmt(code));
        code
    }

    fn setcred(&mut self, flag: CredFlag) -> (code: ResultCode) {
        let code = self.take_code();
        self.record(Op::SetCred(flag, code));
        code
    }

    fn open_session(&mut self) -> (code: ResultCode) {
        let code = self.take_code();
        self.record(Op::OpenSession(code));
        code
    }

    fn close_session(&mut self) -> (code: ResultCode) {
        let code = self.take_code();
        self.record(Op::CloseSession(code));
        code
    }

    fn end(&mut self, status: ResultCode) -> (code: ResultCode) {
        let code = self.take_code();
        self.record(Op::End(status));
        code
    }

    fn getenv(&self, name: &str) -> (value: Option<String>) {
        match self.env.get(name) {
            Some(v) => Some(v.clone()),
            None => None,
        }
    }

    fn putenv(&mut self, name: &str, value: &str) -> (code: ResultCode) {
        let code = self.take_code();
        if code == ResultCode::Success {
            let val = String::from_str(value);
            proof {
                lemma_map_values_insert(self.env@, name@, val, |v: String| v@);
            }
            self.env.insert(String::from_str(name), val);
        }
        self.record(Op::PutEnv(code));
        proof {
            self.written@ = self.written@.push((name@, value@));
        }
        code
    }

    fn set_process_env(&mut self, name: &str, value: &str) {
        let val = String::from_str(value);
        proof {
            lemma_map_values_insert(self.process@, name@, val, |v: String| v@);
        }
        self.process.insert(String::from_str(name), val);
    }

    fn lookup_user(&self, name: &str) -> (found: Option<UserRecord>) {
        match self.users.get(name) {
            Some(u) => Some(u.duplicate()),
            None => None,
        }
    }
}

} // verus!
