//! Queries: a template, its arguments, and the database they are meant for.

use vstd::prelude::*;
use crate::args::ArgsBuilder;
use crate::object::Object;
use crate::value::Value;

verus! {

/// `surrealdb::Datastore`, the engine's handle on its storage. Nothing is
/// known of what it holds: it is only carried to where the query runs.
#[verifier::external_type_specification]
#[verifier::external_body]
pub struct ExDatastore(surrealdb::Datastore);

/// `surrealdb::Session`, the engine's record of who is asking. Nothing is
/// known of what it holds: it is only carried to where the query runs.
#[verifier::external_type_specification]
#[verifier::external_body]
pub struct ExSession(surrealdb::Session);

/// A database: the engine's datastore and the session in which queries run.
pub struct Db {
    datastore: surrealdb::Datastore,
    session: surrealdb::Session,
}

impl Db {
    /// The datastore.
    pub closed spec fn spec_datastore(&self) -> surrealdb::Datastore {
        self.datastore
    }

    /// The session.
    pub closed spec fn spec_session(&self) -> surrealdb::Session {
        self.session
    }

    /// The database that runs queries on `ds` in the session `sess`.
    pub fn new(ds: surrealdb::Datastore, sess: surrealdb::Session) -> (db: Db)
        ensures
            db.spec_datastore() == ds,
            db.spec_session() == sess,
    {
        Db { datastore: ds, session: sess }
    }

    /// A query on this database with the template `sql` and no arguments
    /// yet.
    pub fn query(&self, sql: &str) -> (query: QueryBuilder<'_>)
        ensures
            query.db() == self,
            query.sql() == sql@,
            query.args() == Map::<Seq<char>, Value>::empty(),
    {
        QueryBuilder::new(self, sql)
    }

    /// The datastore.
    pub fn datastore(&self) -> (ds: &surrealdb::Datastore)
        ensures
            *ds == self.spec_datastore(),
    {
        &self.datastore
    }

    /// The session.
    pub fn session(&self) -> (sess: &surrealdb::Session)
        ensures
            *sess == self.spec_session(),
    {
        &self.session
    }
}

/// A query that is being put together: its template and the arguments bound
/// so far. It is used up when it is handed over to run.
pub struct QueryBuilder<'a> {
    db: &'a Db,
    sql: String,
    args: ArgsBuilder,
}

/// A query that is ready to run: what the engine is handed.
pub struct Request<'a> {
    /// The database to run on.
    pub db: &'a Db,
    /// The template.
    pub sql: String,
    /// The arguments, by parameter name.
    pub vars: Object,
    /// Whether the engine is to run the query in its strict mode.
    pub strict: bool,
}

impl<'a> QueryBuilder<'a> {
    /// The database that the query is meant for.
    pub closed spec fn db(&self) -> &'a Db {
        self.db
    }

    /// The template.
    pub closed spec fn sql(&self) -> Seq<char> {
        self.sql@
    }

    /// The arguments bound so far, by parameter name.
    pub closed spec fn args(&self) -> Map<Seq<char>, Value> {
        self.args@
    }

    /// A query on `db` with the template `sql` and no arguments yet.
    pub fn new(db: &'a Db, sql: &str) -> (query: QueryBuilder<'a>)
        ensures
            query.db() == db,
            query.sql() == sql@,
            query.args() == Map::<Seq<char>, Value>::empty(),
    {
        QueryBuilder { db, sql: sql.to_owned(), args: ArgsBuilder::default() }
    }

    /// Binds `value` to the parameter `key`, in place of any value bound to
    /// it before.
    pub fn arg(self, key: &str, value: Value) -> (query: QueryBuilder<'a>)
        ensures
            query.db() == self.db(),
            query.sql() == self.sql(),
            query.args() == self.args().insert(key@, value),
    {
        let mut query = self;
        query.args.arg(key, value);
        query
    }

    /// Hands a fresh builder to `f`, and binds to the parameter `key` what
    /// `f` has collected in it, as one object-shaped value.
    pub fn sub_args<F: FnOnce(&mut ArgsBuilder)>(self, key: &str, f: F) -> (query: QueryBuilder<
        'a,
    >)
        requires
            forall|sub: &mut ArgsBuilder| sub@ == Map::<Seq<char>, Value>::empty()
                ==> call_requires(f, (sub,)),
        ensures
            query.db() == self.db(),
            query.sql() == self.sql(),
            exists|sub: &mut ArgsBuilder|
                sub@ == Map::<Seq<char>, Value>::empty() && call_ensures(f, (sub,), ())
                    && query.args() == self.args().insert(key@, #[trigger] final(sub).as_value()),
    {
        let mut query = self;
        query.args.sub_args(key, f);
        query
    }

    /// Uses the query up: what is to be handed to the engine to run it, in
    /// its strict mode where `strict` is set.
    pub fn into_request(self, strict: bool) -> (request: Request<'a>)
        ensures
            request.db == self.db(),
            request.sql@ == self.sql(),
            request.vars@ == self.args(),
            request.strict == strict,
    {
        Request { db: self.db, sql: self.sql, vars: self.args.into_object(), strict }
    }
}

} // verus!
