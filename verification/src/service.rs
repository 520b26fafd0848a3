//! The host collaborator interface: the primitive operations of the
//! authentication service, the service and process environments, and the
//! host user database, all specified through an abstract state made of an
//! operation log and three maps.

use vstd::prelude::*;

use crate::codes::{CredFlag, Op, ResultCode};
use crate::conv::Conversation;
use vstd::string::StringExecFns;

verus! {

/// What the host user database records about one user: the fields the
/// session environment is populated from.
pub struct UserRecord {
    /// The login name.
    pub name: String,
    /// The home directory.
    pub home: String,
    /// The login shell.
    pub shell: String,
}

/// Mathematical view of a user record.
pub struct UserView {
    pub name: Seq<char>,
    pub home: Seq<char>,
    pub shell: Seq<char>,
}

impl View for UserRecord {
    type V = UserView;

    open spec fn view(&self) -> UserView {
        UserView { name: self.name@, home: self.home@, shell: self.shell@ }
    }
}

impl UserRecord {
    /// Builds a record from its three fields.
    pub fn new(name: &str, home: &str, shell: &str) -> (u: UserRecord)
        ensures
            u@.name == name@,
            u@.home == home@,
            u@.shell == shell@,
    {
        UserRecord {
            name: String::from_str(name),
            home: String::from_str(home),
            shell: String::from_str(shell),
        }
    }

    /// Copies the record.
    pub fn duplicate(&self) -> (u: UserRecord)
        ensures
            u@ == self@,
    {
        UserRecord { name: self.name.clone(), home: self.home.clone(), shell: self.shell.clone() }
    }
}

/// The abstract state of the host, over which the contracts of [`Service`]
/// speak: the log of primitive operations issued so far, the service's own
/// environment namespace, the process-wide environment, and the user
/// database keyed by login name.
pub trait ServiceState {
    /// Every primitive service operation issued so far, oldest first.
    /// The defaults here stand for hosts whose abstract state the library
    /// does not observe; the in-memory host overrides every one of them.
    open spec fn log(&self) -> Seq<Op> {
        Seq::empty()
    }

    /// The authentication service's own environment namespace.
    open spec fn service_env(&self) -> Map<Seq<char>, Seq<char>> {
        Map::empty()
    }

    /// The process-wide environment.
    open spec fn process_env(&self) -> Map<Seq<char>, Seq<char>> {
        Map::empty()
    }

    /// The host user database, keyed by login name.
    open spec fn user_db(&self) -> Map<Seq<char>, UserView> {
        Map::empty()
    }

    /// The service names handed to the start operation so far, oldest
    /// first.
    open spec fn starts(&self) -> Seq<Seq<char>> {
        Seq::empty()
    }

    /// The name and value pairs handed to the service's environment-write
    /// operation so far, oldest first, whatever code each write returned.
    open spec fn env_writes(&self) -> Seq<(Seq<char>, Seq<char>)> {
        Seq::empty()
    }
}

/// The fixed operation set of the host authentication service, together with
/// the process environment and user database that session setup reads and
/// writes.  Each operation appends exactly one entry to the log carrying the
/// code it returned; what else it may change is stated per operation.  The
/// result codes themselves are the host's decisions and are unconstrained.
///
/// The service may drive the conversation while authenticating, so that
/// operation borrows the conversation for the duration of the call.
pub trait Service<C: Conversation>: ServiceState + Sized {
    /// Begins the transaction for the named service.
    fn start(&mut self, service: &str) -> (code: ResultCode)
        ensures
            final(self).log() == old(self).log().push(Op::Start(code)),
            final(self).starts() == old(self).starts().push(service@),
            final(self).env_writes() == old(self).env_writes(),
            final(self).service_env() == old(self).service_env(),
            final(self).process_env() == old(self).process_env(),
            final(self).user_db() == old(self).user_db(),
    ;

    /// The authenticate primitive; may converse to gather credentials.
    fn authenticate(&mut self, conversation: &mut C) -> (code: ResultCode)
        ensures
            final(self).log() == old(self).log().push(Op::Authenticate(code)),
            final(self).service_env() == old(self).service_env(),
            final(self).process_env() == old(self).process_env(),
            final(self).user_db() == old(self).user_db(),
            final(self).starts() == old(self).starts(),
            final(self).env_writes() == old(self).env_writes(),
    ;

    /// The account-management-check primitive.
    fn acct_mgmt(&mut self) -> (code: ResultCode)
        ensures
            final(self).log() == old(self).log().push(Op::AcctMgmt(code)),
            final(self).service_env() == old(self).service_env(),
            final(self).process_env() == old(self).process_env(),
            final(self).user_db() == old(self).user_db(),
            final(self).starts() == old(self).starts(),
            final(self).env_writes() == old(self).env_writes(),
    ;

    /// The set-credentials primitive.
    fn setcred(&mut self, flag: CredFlag) -> (code: ResultCode)
        ensures
            final(self).log() == old(self).log().push(Op::SetCred(flag, code)),
            final(self).service_env() == old(self).service_env(),
            final(self).process_env() == old(self).process_env(),
            final(self).user_db() == old(self).user_db(),
            final(self).starts() == old(self).starts(),
            final(self).env_writes() == old(self).env_writes(),
    ;

    /// The open-session primitive.
    fn open_session(&mut self) -> (code: ResultCode)
        ensures
            final(self).log() == old(self).log().push(Op::OpenSession(code)),
            final(self).service_env() == old(self).service_env(),
            final(self).process_env() == old(self).process_env(),
            final(self).user_db() == old(self).user_db(),
            final(self).starts() == old(self).starts(),
            final(self).env_writes() == old(self).env_writes(),
    ;

    /// The close-session primitive.
    fn close_session(&mut self) -> (code: ResultCode)
        ensures
            final(self).log() == old(self).log().push(Op::CloseSession(code)),
            final(self).service_env() == old(self).service_env(),
            final(self).process_env() == old(self).process_env(),
            final(self).user_db() == old(self).user_db(),
            final(self).starts() == old(self).starts(),
            final(self).env_writes() == old(self).env_writes(),
    ;

    /// The end primitive: closes the transaction, handing the service the
    /// final status code.
    fn end(&mut self, status: ResultCode) -> (code: ResultCode)
        ensures
            final(self).log() == old(self).log().push(Op::End(status)),
            final(self).service_env() == old(self).service_env(),
            final(self).process_env() == old(self).process_env(),
            final(self).user_db() == old(self).user_db(),
            final(self).starts() == old(self).starts(),
            final(self).env_writes() == old(self).env_writes(),
    ;

    /// Reads one variable of the service's environment namespace.
    fn getenv(&self, name: &str) -> (value: Option<String>)
        ensures
            value is Some <==> self.service_env().contains_key(name@),
            value matches Some(v) ==> v@ == self.service_env()[name@],
    ;

    /// Writes one variable of the service's environment namespace; on a
    /// non-success code the namespace is unchanged.
    fn putenv(&mut self, name: &str, value: &str) -> (code: ResultCode)
        ensures
            final(self).log() == old(self).log().push(Op::PutEnv(code)),
            code == ResultCode::Success ==> final(self).service_env() == old(
                self,
            ).service_env().insert(name@, value@),
            code != ResultCode::Success ==> final(self).service_env() == old(self).service_env(),
            final(self).env_writes() == old(self).env_writes().push((name@, value@)),
            final(self).starts() == old(self).starts(),
            final(self).process_env() == old(self).process_env(),
            final(self).user_db() == old(self).user_db(),
    ;

    /// Sets one process-wide environment variable.
    fn set_process_env(&mut self, name: &str, value: &str)
        ensures
            final(self).process_env() == old(self).process_env().insert(name@, value@),
            final(self).log() == old(self).log(),
            final(self).service_env() == old(self).service_env(),
            final(self).user_db() == old(self).user_db(),
            final(self).starts() == old(self).starts(),
            final(self).env_writes() == old(self).env_writes(),
    ;

    /// Resolves a user record in the host user database.
    fn lookup_user(&self, name: &str) -> (found: Option<UserRecord>)
        ensures
            found is Some <==> self.user_db().contains_key(name@),
            found matches Some(u) ==> u@ == self.user_db()[name@],
    ;
}

} // verus!
