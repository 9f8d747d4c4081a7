//! The decisions behind a MySQL connection.
//!
//! A connection is served by outside parties: a query handler, a user provider, a builder of
//! contexts, and the writers of the wire protocol. The functions here decide what is asked of
//! them and what their answers lead to; whoever drives the connection does the asking.
use vstd::prelude::*;

use crate::salt::{random_bytes, scramble};

verus! {

/// The kind of an error that a client is answered with.
#[derive(Debug, Clone, Copy, PartialEq, Eq, Structural)]
pub enum ErrorKind {
    /// `ER_UNKNOWN_ERROR` of the MySQL protocol.
    UnknownError,
}

/// An error that a client is answered with.
#[derive(Debug, PartialEq, Eq)]
pub struct ErrorReply {
    pub kind: ErrorKind,
    pub message: Vec<u8>,
}

/// The protocol that a client speaks.
#[derive(Debug, Clone, Copy, PartialEq, Eq, Structural)]
pub enum Channel {
    MYSQL,
}

/// Who a client says it is.
#[derive(Debug, PartialEq, Eq)]
pub enum Identity {
    /// A user name, and the address that the client connected from.
    UserId(String, Option<String>),
}

/// What a client shows to prove it.
#[derive(Debug, PartialEq, Eq)]
pub enum Password<'a> {
    /// The client's answer to the salt, and the salt.
    MysqlNativePwd(&'a [u8], &'a [u8]),
}

/// What the context of an authenticated connection is built from.
#[derive(Debug, PartialEq, Eq)]
pub struct ContextParts<U> {
    pub client_addr: String,
    pub channel: Channel,
    pub user_info: U,
}

/// What comes next in authenticating a client.
#[derive(Debug, PartialEq, Eq)]
pub enum AuthStep<'a, U> {
    /// Ask the user provider about the client, and go on with [`MysqlInstanceShim::authenticated`].
    Ask(Identity, Password<'a>),
    /// Build the context, and go on with [`ContextSlot::settle`].
    Build(ContextParts<U>),
    /// Nothing more: this is whether the client is admitted.
    Answer(bool),
}

/// What comes next in answering a query.
#[derive(Debug, PartialEq, Eq)]
pub enum QueryStep<'a, S, O, E> {
    /// Have the query handler execute this query in this session, and go on with
    /// [`MysqlInstanceShim::executed`].
    Execute { query: &'a str, session: &'a S },
    /// Nothing more: this is the result of the query.
    Return(Result<O, E>),
}

/// The state behind a MySQL connection, with a query handler of type `Q`, a user provider of
/// type `P` and a session of type `S`.
pub struct MysqlInstanceShim<Q, P, S> {
    query_handler: Q,
    salt: [u8; 20],
    client_addr: String,
    session: S,
    user_provider: Option<P>,
}

/// The view of a [`MysqlInstanceShim`].
pub ghost struct ShimView<Q, P, S> {
    pub query_handler: Q,
    pub salt: Seq<u8>,
    pub client_addr: Seq<char>,
    pub session: S,
    pub user_provider: Option<P>,
}

impl<Q, P, S> View for MysqlInstanceShim<Q, P, S> {
    type V = ShimView<Q, P, S>;

    closed spec fn view(&self) -> ShimView<Q, P, S> {
        ShimView {
            query_handler: self.query_handler,
            salt: self.salt@,
            client_addr: self.client_addr@,
            session: self.session,
            user_provider: self.user_provider,
        }
    }
}

/// The first step of authenticating a client who names `plugin` as its authentication method.
///
/// Without a user provider every client gets a context, with the default user. With one, the
/// provider is asked about a client that uses `mysql_native_password`, and any other client is
/// refused.
pub open spec fn first_step<Q, P, S, U: Default>(
    shim: ShimView<Q, P, S>,
    plugin: Seq<char>,
    username: Seq<char>,
    salt: Seq<u8>,
    auth_data: Seq<u8>,
    step: AuthStep<'_, U>,
) -> bool {
    if shim.user_provider is None {
        &&& step matches AuthStep::Build(parts)
        &&& parts.client_addr@ == shim.client_addr
        &&& parts.channel == Channel::MYSQL
        &&& call_ensures(U::default, (), parts.user_info)
    } else if plugin == "mysql_native_password"@ {
        &&& step matches AuthStep::Ask(
            Identity::UserId(name, Some(host)),
            Password::MysqlNativePwd(answer, question),
        )
        &&& name@ == username
        &&& host@ == shim.client_addr
        &&& answer@ == auth_data
        &&& question@ == salt
    } else {
        step matches AuthStep::Answer(admitted) && !admitted
    }
}

/// The step that follows the user provider's reply: a context for the user that it found, or
/// a refusal.
pub open spec fn step_after_reply<Q, P, S, U, E>(
    shim: ShimView<Q, P, S>,
    reply: Result<U, E>,
    step: AuthStep<'_, U>,
) -> bool {
    match reply {
        Ok(user_info) => {
            &&& step matches AuthStep::Build(parts)
            &&& parts.client_addr@ == shim.client_addr
            &&& parts.channel == Channel::MYSQL
            &&& parts.user_info == user_info
        },
        Err(_) => step matches AuthStep::Answer(admitted) && !admitted,
    }
}

/// The first step of answering a query: an answer that was found for it is returned, and else the
/// query handler is to execute the query, as it was given, in the session of the connection.
pub open spec fn query_step<Q, P, S, O, E>(
    shim: ShimView<Q, P, S>,
    query: Seq<char>,
    federated: Option<O>,
    step: QueryStep<'_, S, O, E>,
) -> bool {
    match federated {
        Some(output) => step matches QueryStep::Return(Ok(returned)) && returned == output,
        None => {
            &&& step matches QueryStep::Execute { query: text, session }
            &&& text@ == query
            &&& *session == shim.session
        },
    }
}

/// Whether a reply is an unknown error with this message.
pub open spec fn is_unknown_error(reply: ErrorReply, message: Seq<char>) -> bool {
    &&& reply.kind == ErrorKind::UnknownError
    &&& reply.message@ == vstd::utf8::encode_utf8(message)
}

/// Whether a reply is the refusal of a request that takes prepared statements.
pub open spec fn refuses_prepared(reply: ErrorReply) -> bool {
    is_unknown_error(reply, "prepare statement is not supported yet"@)
}

impl<Q, P, S> MysqlInstanceShim<Q, P, S> {
    #[verifier::type_invariant]
    spec fn wf(self) -> bool {
        crate::salt::is_salt(self.salt@)
    }

    /// The state behind a new connection, with a random salt.
    pub fn create(
        query_handler: Q,
        client_addr: String,
        user_provider: Option<P>,
        session: S,
    ) -> (r: Self)
        ensures
            r@.query_handler == query_handler,
            r@.client_addr == client_addr@,
            r@.user_provider == user_provider,
            r@.session == session,
            crate::salt::is_salt(r@.salt),
    {
        let bs = random_bytes();
        Self::create_with(bs.as_slice(), query_handler, client_addr, user_provider, session)
    }

    /// The state behind a new connection, with the salt that given bytes make.
    pub fn create_with(
        bs: &[u8],
        query_handler: Q,
        client_addr: String,
        user_provider: Option<P>,
        session: S,
    ) -> (r: Self)
        requires
            bs@.len() >= crate::salt::SALT_LEN,
        ensures
            r@.query_handler == query_handler,
            r@.client_addr == client_addr@,
            r@.user_provider == user_provider,
            r@.session == session,
            r@.salt == crate::salt::scrambled(bs@),
            crate::salt::is_salt(r@.salt),
    {
        let salt = scramble(bs);
        MysqlInstanceShim { query_handler, salt, client_addr, session, user_provider }
    }

    /// The salt of the handshake.
    pub fn salt(&self) -> (r: [u8; 20])
        ensures
            r@ == self@.salt,
            crate::salt::is_salt(r@),
    {
        proof {
            use_type_invariant(self);
        }
        self.salt
    }

    /// The query handler.
    pub fn query_handler(&self) -> (r: &Q)
        ensures
            *r == self@.query_handler,
    {
        &self.query_handler
    }

    /// The session.
    pub fn session(&self) -> (r: &S)
        ensures
            *r == self@.session,
    {
        &self.session
    }

    /// The user provider, if there is one.
    pub fn user_provider(&self) -> (r: Option<&P>)
        ensures
            match r {
                Some(provider) => self@.user_provider == Some(*provider),
                None => self@.user_provider is None,
            },
    {
        match &self.user_provider {
            Some(provider) => Some(provider),
            None => None,
        }
    }

    /// The first step of authenticating a client: see [`first_step`]. Its name is given as bytes.
    /// Where they are not UTF-8, the name that the user provider is asked about shows it by a
    /// U+FFFD.
    pub fn authenticate<'a, U: Default>(
        &self,
        auth_plugin: &str,
        username: &[u8],
        salt: &'a [u8],
        auth_data: &'a [u8],
    ) -> (r: AuthStep<'a, U>)
        ensures
            first_step(
                self@,
                auth_plugin@,
                crate::text::utf8_lossy(username@),
                salt@,
                auth_data@,
                r,
            ),
            vstd::utf8::valid_utf8(username@) ==> first_step(
                self@,
                auth_plugin@,
                vstd::utf8::decode_utf8(username@),
                salt@,
                auth_data@,
                r,
            ),
            !vstd::utf8::valid_utf8(username@) ==> (r matches AuthStep::Ask(
                Identity::UserId(name, _),
                _,
            ) ==> name@.contains('\u{fffd}')),
    {
        let username = crate::text::from_utf8_lossy(username);
        self.authenticate_user(auth_plugin, username, salt, auth_data)
    }

    /// The first step of authenticating a client: see [`first_step`]. Its name is given as text.
    pub fn authenticate_user<'a, U: Default>(
        &self,
        auth_plugin: &str,
        username: String,
        salt: &'a [u8],
        auth_data: &'a [u8],
    ) -> (r: AuthStep<'a, U>)
        ensures
            first_step(self@, auth_plugin@, username@, salt@, auth_data@, r),
    {
        let client_addr = self.client_addr.clone();
        if self.user_provider.is_some() {
            if auth_plugin.to_string() == "mysql_native_password".to_string() {
                AuthStep::Ask(
                    Identity::UserId(username, Some(client_addr)),
                    Password::MysqlNativePwd(auth_data, salt),
                )
            } else {
                AuthStep::Answer(false)
            }
        } else {
            let user_info: Option<U> = None;
            AuthStep::Build(
                ContextParts {
                    client_addr,
                    channel: Channel::MYSQL,
                    user_info: user_info.unwrap_or_default(),
                },
            )
        }
    }

    /// The step that follows the user provider's reply: see [`step_after_reply`].
    pub fn authenticated<'a, U, E>(&self, reply: Result<U, E>) -> (r: AuthStep<'a, U>)
        ensures
            step_after_reply(self@, reply, r),
    {
        match reply {
            Ok(user_info) => AuthStep::Build(
                ContextParts {
                    client_addr: self.client_addr.clone(),
                    channel: Channel::MYSQL,
                    user_info,
                },
            ),
            Err(_) => AuthStep::Answer(false),
        }
    }

    /// The first step of answering a query, given the answer that was found for it among those
    /// to the queries of federated clients, if any: see [`query_step`].
    pub fn do_query<'a, O, E>(&'a self, query: &'a str, federated: Option<O>) -> (r: QueryStep<
        'a,
        S,
        O,
        E,
    >)
        ensures
            query_step(self@, query@, federated, r),
    {
        match federated {
            Some(output) => QueryStep::Return(Ok(output)),
            None => QueryStep::Execute { query, session: &self.session },
        }
    }

    /// The step that follows the execution of a query: its result is returned as it is.
    pub fn executed<'a, O, E>(&self, result: Result<O, E>) -> (r: QueryStep<'a, S, O, E>)
        ensures
            r == QueryStep::<'a, S, O, E>::Return(result),
    {
        QueryStep::Return(result)
    }

    /// The answer to a request to prepare a statement.
    pub fn on_prepare(&self) -> (r: ErrorReply)
        ensures
            refuses_prepared(r),
    {
        ErrorReply {
            kind: ErrorKind::UnknownError,
            message: "prepare statement is not supported yet".as_bytes_vec(),
        }
    }

    /// The answer to a request to execute a prepared statement.
    pub fn on_execute(&self) -> (r: ErrorReply)
        ensures
            refuses_prepared(r),
    {
        ErrorReply {
            kind: ErrorKind::UnknownError,
            message: "prepare statement is not supported yet".as_bytes_vec(),
        }
    }

    /// The query that a client's change of database amounts to.
    pub fn on_init(&self, database: &str) -> (r: String)
        ensures
            r@ == use_query(database@),
    {
        "USE ".to_string().concat(crate::text::trim(database))
    }

    /// The answer to a client's change of database, given what became of its query: the output,
    /// or the message of the error. `Ok` is the answer that all is well.
    pub fn init_reply<O>(&self, output: Result<O, String>) -> (r: Result<(), ErrorReply>)
        ensures
            match output {
                Ok(_) => r is Ok,
                Err(message) => r matches Err(reply) && is_unknown_error(reply, message@),
            },
    {
        match output {
            Ok(_) => Ok(()),
            Err(message) => Err(
                ErrorReply {
                    kind: ErrorKind::UnknownError,
                    message: message.as_str().as_bytes_vec(),
                },
            ),
        }
    }
}

/// The context of a connection, once it is authenticated.
pub struct ContextSlot<C> {
    ctx: Option<C>,
}

impl<C> View for ContextSlot<C> {
    type V = Option<C>;

    closed spec fn view(&self) -> Option<C> {
        self.ctx
    }
}

impl<C> ContextSlot<C> {
    /// The slot of a new connection: there is no context yet.
    pub fn new() -> (r: Self)
        ensures
            r@ is None,
    {
        ContextSlot { ctx: None }
    }

    /// The context, if there is one.
    pub fn get(&self) -> (r: Option<&C>)
        ensures
            match r {
                Some(ctx) => self@ == Some(*ctx),
                None => self@ is None,
            },
    {
        match &self.ctx {
            Some(ctx) => Some(ctx),
            None => None,
        }
    }

    /// The last step of authenticating a client: it is admitted if its context could be built,
    /// which then takes the place of the one before. Otherwise nothing changes.
    pub fn settle<E>(&mut self, built: Result<C, E>) -> (admitted: bool)
        ensures
            admitted == (built is Ok),
            final(self)@ == match built {
                Ok(ctx) => Some(ctx),
                Err(_) => old(self)@,
            },
    {
        match built {
            Ok(ctx) => {
                self.ctx = Some(ctx);
                true
            },
            Err(_) => false,
        }
    }
}

/// A client is admitted only by the user provider, where there is one.
///
/// `first` is the first step of authenticating a client and `second` the one that follows the
/// provider's reply, where it is asked. The provider is asked at most once. The client is
/// refused unless there is no provider, or the client uses `mysql_native_password` and the
/// provider found a user; then a context is built for that client, and for that user.
pub proof fn admission<Q, P, S, U: Default, E>(
    shim: ShimView<Q, P, S>,
    plugin: Seq<char>,
    username: Seq<char>,
    salt: Seq<u8>,
    auth_data: Seq<u8>,
    first: AuthStep<'_, U>,
    reply: Result<U, E>,
    second: AuthStep<'_, U>,
)
    requires
        first_step(shim, plugin, username, salt, auth_data, first),
        first is Ask ==> step_after_reply(shim, reply, second),
    ensures
        first is Ask <==> shim.user_provider is Some && plugin == "mysql_native_password"@,
        ({
            let last = if first is Ask {
                second
            } else {
                first
            };
            let admissible = shim.user_provider is None || plugin == "mysql_native_password"@
                && reply is Ok;
            &&& admissible ==> last is Build
            &&& !admissible ==> (last matches AuthStep::Answer(admitted) && !admitted)
            &&& last matches AuthStep::Build(parts) ==> {
                &&& parts.client_addr@ == shim.client_addr
                &&& parts.channel == Channel::MYSQL
                &&& shim.user_provider is Some ==> parts.user_info == reply->Ok_0
                &&& shim.user_provider is None ==> call_ensures(U::default, (), parts.user_info)
            }
        }),
{
}

/// A query is executed at most once, and only where no answer to it was found. Its result is
/// that answer, or what its execution gave.
///
/// `first` is the first step of answering a query and `second` the one that follows its
/// execution, where it is executed.
pub proof fn query_results<Q, P, S, O, E>(
    shim: ShimView<Q, P, S>,
    query: Seq<char>,
    federated: Option<O>,
    first: QueryStep<'_, S, O, E>,
    result: Result<O, E>,
    second: QueryStep<'_, S, O, E>,
)
    requires
        query_step(shim, query, federated, first),
        first is Execute ==> second == QueryStep::<'_, S, O, E>::Return(result),
    ensures
        first is Execute <==> federated is None,
        ({
            let last = if first is Execute {
                second
            } else {
                first
            };
            last matches QueryStep::Return(returned) && returned == match federated {
                Some(output) => Ok::<O, E>(output),
                None => result,
            }
        }),
{
}

/// Requests to prepare a statement and to execute one are refused in the same words.
pub proof fn prepared_refusals_agree(prepare: ErrorReply, execute: ErrorReply)
    requires
        refuses_prepared(prepare),
        refuses_prepared(execute),
    ensures
        prepare.kind == execute.kind,
        prepare.message@ == execute.message@,
{
}

/// The query that a change of database amounts to.
pub open spec fn use_query(database: Seq<char>) -> Seq<char> {
    "USE "@ + crate::text::trimmed(database)
}

/// White space around the name of a database is ignored.
pub proof fn use_query_ignores_white_space(
    lead: Seq<char>,
    database: Seq<char>,
    trail: Seq<char>,
)
    requires
        crate::text::all_white_space(lead),
        crate::text::all_white_space(trail),
    ensures
        use_query(lead + database + trail) == use_query(database),
{
    crate::text::trimmed_ignores_white_space(lead, database, trail);
}

/// The user provider is asked about the client as it presented itself: under the name that it
/// gave, at the address that it connected from, with its reply to the salt and then the salt, each
/// whole and in its place. It is asked about every client that uses `mysql_native_password`.
pub proof fn what_the_provider_is_asked<Q, P, S, U: Default>(
    query_handler: Q,
    client_addr: String,
    user_provider: Option<P>,
    session: S,
    shim: MysqlInstanceShim<Q, P, S>,
    auth_plugin: &str,
    username: String,
    salt: &[u8],
    auth_data: &[u8],
    step: AuthStep<'_, U>,
)
    requires
        call_ensures(
            MysqlInstanceShim::<Q, P, S>::create,
            (query_handler, client_addr, user_provider, session),
            shim,
        ),
        call_ensures(
            MysqlInstanceShim::<Q, P, S>::authenticate_user::<U>,
            (&shim, auth_plugin, username, salt, auth_data),
            step,
        ),
    ensures
        step is Ask <==> user_provider is Some && auth_plugin@ == "mysql_native_password"@,
        step matches AuthStep::Ask(
            Identity::UserId(name, host),
            Password::MysqlNativePwd(reply, challenge),
        ) ==> {
            &&& name@ == username@
            &&& host matches Some(host) && host@ == client_addr@
            &&& reply@ == auth_data@
            &&& challenge@ == salt@
        },
{
}

/// A client that the user provider is not asked about is admitted as the default user where there
/// is no provider, and refused where there is one.
pub proof fn clients_without_a_question<Q, P, S, U: Default>(
    query_handler: Q,
    client_addr: String,
    user_provider: Option<P>,
    session: S,
    shim: MysqlInstanceShim<Q, P, S>,
    auth_plugin: &str,
    username: String,
    salt: &[u8],
    auth_data: &[u8],
    step: AuthStep<'_, U>,
)
    requires
        call_ensures(
            MysqlInstanceShim::<Q, P, S>::create,
            (query_handler, client_addr, user_provider, session),
            shim,
        ),
        call_ensures(
            MysqlInstanceShim::<Q, P, S>::authenticate_user::<U>,
            (&shim, auth_plugin, username, salt, auth_data),
            step,
        ),
    ensures
        user_provider is None ==> (step matches AuthStep::Build(parts) && parts.client_addr@
            == client_addr@ && parts.channel == Channel::MYSQL && call_ensures(
            U::default,
            (),
            parts.user_info,
        )),
        user_provider is Some && auth_plugin@ != "mysql_native_password"@ ==> step
            == AuthStep::<'_, U>::Answer(false),
{
}

/// A name that is sent as bytes is the name whose encoding they are; the rest of the step is that
/// of a name given as text. Bytes that are no encoding of a name lead to one with a U+FFFD.
pub proof fn names_are_sent_as_utf8<Q, P, S, U: Default>(
    shim: &MysqlInstanceShim<Q, P, S>,
    auth_plugin: &str,
    username: &[u8],
    salt: &[u8],
    auth_data: &[u8],
    step: AuthStep<'_, U>,
)
    requires
        call_ensures(
            MysqlInstanceShim::<Q, P, S>::authenticate::<U>,
            (shim, auth_plugin, username, salt, auth_data),
            step,
        ),
    ensures
        step is Ask <==> shim@.user_provider is Some && auth_plugin@ == "mysql_native_password"@,
        step is Build <==> shim@.user_provider is None,
        step matches AuthStep::Ask(
            Identity::UserId(name, host),
            Password::MysqlNativePwd(reply, challenge),
        ) ==> {
            &&& vstd::utf8::valid_utf8(username@) ==> vstd::utf8::encode_utf8(name@) == username@
            &&& !vstd::utf8::valid_utf8(username@) ==> name@.contains('\u{fffd}')
            &&& host matches Some(host) && host@ == shim@.client_addr
            &&& reply@ == auth_data@
            &&& challenge@ == salt@
        },
        step matches AuthStep::Build(parts) ==> {
            &&& parts.client_addr@ == shim@.client_addr
            &&& parts.channel == Channel::MYSQL
            &&& call_ensures(U::default, (), parts.user_info)
        },
        step matches AuthStep::Answer(admitted) ==> !admitted,
{
    if vstd::utf8::valid_utf8(username@) {
        vstd::utf8::decode_utf8_encode_utf8(username@);
    }
}

/// The user provider's reply decides: the user that it found gets a context, at the address of the
/// connection, and where it found none the client is refused.
pub proof fn what_the_reply_leads_to<Q, P, S, U, E>(
    query_handler: Q,
    client_addr: String,
    user_provider: Option<P>,
    session: S,
    shim: MysqlInstanceShim<Q, P, S>,
    reply: Result<U, E>,
    step: AuthStep<'_, U>,
)
    requires
        call_ensures(
            MysqlInstanceShim::<Q, P, S>::create,
            (query_handler, client_addr, user_provider, session),
            shim,
        ),
        call_ensures(MysqlInstanceShim::<Q, P, S>::authenticated::<U, E>, (&shim, reply), step),
    ensures
        reply matches Ok(found) ==> (step matches AuthStep::Build(parts) && parts.user_info
            == found && parts.client_addr@ == client_addr@ && parts.channel == Channel::MYSQL),
        reply is Err ==> step == AuthStep::<'_, U>::Answer(false),
{
}

/// A query that no answer was found for is executed whole, as it was given, in the session that
/// the connection was made with. One that an answer was found for is answered with it.
pub proof fn queries_are_executed_as_given<Q, P, S, O, E>(
    query_handler: Q,
    client_addr: String,
    user_provider: Option<P>,
    session: S,
    shim: MysqlInstanceShim<Q, P, S>,
    query: &str,
    federated: Option<O>,
    step: QueryStep<'_, S, O, E>,
)
    requires
        call_ensures(
            MysqlInstanceShim::<Q, P, S>::create,
            (query_handler, client_addr, user_provider, session),
            shim,
        ),
        call_ensures(
            MysqlInstanceShim::<Q, P, S>::do_query::<O, E>,
            (&shim, query, federated),
            step,
        ),
    ensures
        federated is None ==> step is Execute,
        step matches QueryStep::Execute { query: executed, session: place } ==> {
            &&& federated is None
            &&& executed@ == query@
            &&& *place == session
        },
        federated matches Some(found) ==> step == QueryStep::<'_, S, O, E>::Return(Ok(found)),
{
}

/// What comes of executing a query is its result, whatever it is.
pub proof fn results_are_returned_as_they_are<Q, P, S, O, E>(
    shim: &MysqlInstanceShim<Q, P, S>,
    result: Result<O, E>,
    step: QueryStep<'_, S, O, E>,
)
    requires
        call_ensures(MysqlInstanceShim::<Q, P, S>::executed::<O, E>, (shim, result), step),
    ensures
        step matches QueryStep::Return(returned) && returned == result,
{
}

/// A change of database is the query `USE` with the name of the database, which is kept whole; the
/// white space around it is not part of it.
pub proof fn databases_are_used_by_name<Q, P, S>(
    shim: &MysqlInstanceShim<Q, P, S>,
    lead: Seq<char>,
    name: Seq<char>,
    trail: Seq<char>,
    database: &str,
    query: String,
)
    requires
        call_ensures(MysqlInstanceShim::<Q, P, S>::on_init, (shim, database), query),
        database@ == lead + name + trail,
        forall|i: int|
            0 <= i < lead.len() ==> crate::text::is_white_space(#[trigger] lead[i]),
        name.len() > 0 ==> !crate::text::is_white_space(name[0])
            && !crate::text::is_white_space(name[name.len() - 1]),
        forall|i: int|
            0 <= i < trail.len() ==> crate::text::is_white_space(#[trigger] trail[i]),
    ensures
        query@ == seq!['U', 'S', 'E', ' '] + name,
{
    reveal_strlit("USE ");
    assert("USE "@ =~= seq!['U', 'S', 'E', ' ']);
    crate::text::tight_text_is_kept(lead, name, trail);
}

/// Whatever a client gives as a database, the query that it amounts to is `USE` with a part of it:
/// all but white space in front and behind.
pub proof fn used_names<Q, P, S>(
    shim: &MysqlInstanceShim<Q, P, S>,
    database: &str,
    query: String,
) -> (around: (Seq<char>, Seq<char>))
    requires
        call_ensures(MysqlInstanceShim::<Q, P, S>::on_init, (shim, database), query),
    ensures
        query@.take(4) == seq!['U', 'S', 'E', ' '],
        database@ == around.0 + query@.skip(4) + around.1,
        crate::text::all_white_space(around.0),
        crate::text::all_white_space(around.1),
        crate::text::is_tight(query@.skip(4)),
{
    let around = crate::text::trimmed_parts(database@);
    let name = crate::text::trimmed(database@);
    assert(database@ == around.0 + name + around.1);
    databases_are_used_by_name(shim, around.0, name, around.1, database, query);
    assert(query@.take(4) =~= seq!['U', 'S', 'E', ' ']);
    assert(query@.skip(4) =~= name);
    around
}

/// A change of database is answered by how its query went: well, or with the whole message of the
/// error.
pub proof fn what_a_change_of_database_is_answered<Q, P, S, O>(
    shim: &MysqlInstanceShim<Q, P, S>,
    output: Result<O, String>,
    reply: Result<(), ErrorReply>,
)
    requires
        call_ensures(MysqlInstanceShim::<Q, P, S>::init_reply::<O>, (shim, output), reply),
    ensures
        reply is Ok <==> output is Ok,
        output matches Err(message) ==> (reply matches Err(error) && error.kind
            == ErrorKind::UnknownError && error.message@ == vstd::utf8::encode_utf8(message@)
            && vstd::utf8::decode_utf8(error.message@) == message@),
{
    if let Err(message) = output {
        vstd::utf8::encode_utf8_decode_utf8(message@);
    }
}

/// Prepared statements are refused with a message that can be read, on every connection.
pub proof fn prepared_statements_are_refused<Q, P, S>(
    shim: &MysqlInstanceShim<Q, P, S>,
    prepare: ErrorReply,
    execute: ErrorReply,
)
    requires
        call_ensures(MysqlInstanceShim::<Q, P, S>::on_prepare, (shim,), prepare),
        call_ensures(MysqlInstanceShim::<Q, P, S>::on_execute, (shim,), execute),
    ensures
        prepare.kind == ErrorKind::UnknownError,
        execute.kind == ErrorKind::UnknownError,
        vstd::utf8::decode_utf8(prepare.message@) == "prepare statement is not supported yet"@,
        vstd::utf8::decode_utf8(execute.message@) == "prepare statement is not supported yet"@,
{
    vstd::utf8::encode_utf8_decode_utf8("prepare statement is not supported yet"@);
}

/// A connection keeps what it was made with, and the salt that it hands out is made of the bytes
/// that were given, each in its place.
pub proof fn connections_keep_what_they_are_given<Q, P, S>(
    bs: &[u8],
    query_handler: Q,
    client_addr: String,
    user_provider: Option<P>,
    session: S,
    shim: MysqlInstanceShim<Q, P, S>,
    salt: [u8; 20],
    kept_handler: &Q,
    kept_session: &S,
    kept_provider: Option<&P>,
    i: int,
)
    requires
        bs@.len() >= 20,
        call_ensures(
            MysqlInstanceShim::<Q, P, S>::create_with,
            (bs, query_handler, client_addr, user_provider, session),
            shim,
        ),
        call_ensures(MysqlInstanceShim::<Q, P, S>::salt, (&shim,), salt),
        call_ensures(MysqlInstanceShim::<Q, P, S>::query_handler, (&shim,), kept_handler),
        call_ensures(MysqlInstanceShim::<Q, P, S>::session, (&shim,), kept_session),
        call_ensures(MysqlInstanceShim::<Q, P, S>::user_provider, (&shim,), kept_provider),
        0 <= i < 20,
    ensures
        *kept_handler == query_handler,
        *kept_session == session,
        kept_provider matches Some(provider) ==> user_provider == Some(*provider),
        kept_provider is None ==> user_provider is None,
        0 < salt@[i] < 128,
        salt@[i] != '$' as u8,
        bs@[i] % 128 != 0 && bs@[i] % 128 != '$' as u8 ==> salt@[i] == bs@[i] % 128,
        bs@[i] % 128 == 0 || bs@[i] % 128 == '$' as u8 ==> salt@[i] == bs@[i] % 128 + 1,
{
    assert(crate::salt::is_salt_byte(salt@[i]));
}

/// The salt of a new connection has twenty bytes, none of them NUL, `$` or beyond ASCII.
pub proof fn new_salts<Q, P, S>(
    query_handler: Q,
    client_addr: String,
    user_provider: Option<P>,
    session: S,
    shim: MysqlInstanceShim<Q, P, S>,
    salt: [u8; 20],
    i: int,
)
    requires
        call_ensures(
            MysqlInstanceShim::<Q, P, S>::create,
            (query_handler, client_addr, user_provider, session),
            shim,
        ),
        call_ensures(MysqlInstanceShim::<Q, P, S>::salt, (&shim,), salt),
        0 <= i < 20,
    ensures
        0 < salt@[i] < 128,
        salt@[i] != '$' as u8,
{
    assert(crate::salt::is_salt_byte(salt@[i]));
}

} // verus!
