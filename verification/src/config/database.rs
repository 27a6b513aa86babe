//! The database as a source of queue definitions: where to find it, and how
//! often a query is tried before the source gives up.

use vstd::prelude::*;
use vstd::string::StringExecFns;

use crate::config::queue::config::{all_valid, lookup, QueueConfig, QueueConfigView};
use crate::config::queue::model::QueueModel;
use crate::config::DatabaseConfig;
use crate::text::{decimal, push_decimal};

verus! {

/// Port of a database whose configuration names none.
pub const DEFAULT_PORT: i32 = 3306;

/// Bound on the attempts of a query where the configuration names none.
pub const DEFAULT_RETRIES: i32 = 3;

/// Port that the configuration asks for.
pub open spec fn port_of(config: &DatabaseConfig) -> i32 {
    match config.port {
        Some(port) => port,
        None => DEFAULT_PORT,
    }
}

/// Bound on the attempts of a query: attempts are numbered from one and stay
/// below the bound.
pub open spec fn retries_of(config: &DatabaseConfig) -> i32 {
    match config.retries {
        Some(retries) => retries,
        None => DEFAULT_RETRIES,
    }
}

/// Address of the database as the connection pool takes it.
pub open spec fn database_url(config: &DatabaseConfig) -> Seq<char> {
    "mysql://"@ + config.user@ + ":"@ + config.password@ + "@"@ + config.host@ + ":"@ + decimal(
        port_of(config) as int,
    ) + "/"@ + config.db_name@
}

/// What the source does next about a query.
#[derive(Clone, Copy, Debug, PartialEq, Eq, Structural)]
pub enum DatabaseStep {
    /// Take a connection from the pool and run the query, as the attempt with
    /// the given number.
    Query(i32),
    /// Open the pool anew, then run the query as the attempt with the given
    /// number.
    ReconnectAndQuery(i32),
    /// Open the pool anew and answer that nothing was found.
    ReconnectAndGiveUp,
    /// Answer that nothing was found.
    GiveUp,
    /// The database is out of reach for good.
    Fatal,
}

/// The first step of a query: the first attempt, where the bound leaves room
/// for one.
pub open spec fn first_step(retries: i32) -> DatabaseStep {
    if 1 < retries {
        DatabaseStep::Query(1)
    } else {
        DatabaseStep::GiveUp
    }
}

/// The step after a failed attempt: the first failure opens the pool anew and
/// is followed by the second attempt where the bound leaves room for it;
/// every later failure is fatal.
pub open spec fn step_after_failure(retries: i32, attempt: i32) -> DatabaseStep {
    if attempt == 1 {
        if 2 < retries {
            DatabaseStep::ReconnectAndQuery(2)
        } else {
            DatabaseStep::ReconnectAndGiveUp
        }
    } else {
        DatabaseStep::Fatal
    }
}

/// How many more attempts can follow a step.
pub open spec fn attempts_left(step: DatabaseStep) -> nat {
    match step {
        DatabaseStep::Query(attempt) | DatabaseStep::ReconnectAndQuery(attempt) => if attempt
            == 1 {
            2
        } else {
            1
        },
        _ => 0,
    }
}

/// The driver of the database, as the source needs it. The source decides
/// when to ask and what to make of the answers; an implementor only talks to
/// the database.
pub trait QueueTable {
    /// Opens the connection pool anew under the given address.
    fn connect(&mut self, url: &str);

    /// All rows of the table of queues, or nothing where the pool gave no
    /// connection or the query failed.
    fn load(&mut self) -> Option<Vec<QueueConfig>>;

    /// One row with the given id, or nothing where the pool gave no
    /// connection or the query failed.
    fn find(&mut self, id: i32) -> Option<QueueConfig>;

    /// Hears that the database is out of reach for good. Implementors end the
    /// program here; to one that returns, the source answers that nothing was
    /// found.
    fn give_up(&mut self);
}

/// The valid definitions among `rows`, in their order.
pub fn keep_valid(rows: Vec<QueueConfig>) -> (kept: Vec<QueueConfig>)
    ensures
        kept.deep_view() == rows.deep_view().filter(|row: QueueConfigView| row.valid()),
        all_valid(kept.deep_view()),
{
    let mut kept: Vec<QueueConfig> = Vec::new();
    let ghost all = rows.deep_view();
    let ghost valid = |row: QueueConfigView| row.valid();
    let mut i: usize = 0;
    assert(all.take(0) =~= Seq::<QueueConfigView>::empty());
    assert(all.take(0).filter(valid) =~= Seq::<QueueConfigView>::empty()) by {
        reveal(Seq::filter);
    }
    while i < rows.len()
        invariant
            i <= rows.len(),
            all == rows.deep_view(),
            valid == |row: QueueConfigView| row.valid(),
            kept.deep_view() == all.take(i as int).filter(valid),
            all_valid(kept.deep_view()),
        decreases rows.len() - i,
    {
        let ghost before = kept.deep_view();
        proof {
            assert(all.take(i + 1).drop_last() =~= all.take(i as int));
            assert(all.take(i + 1).last() == all[i as int]);
            reveal(Seq::filter);
        }
        if rows[i].is_valid() {
            kept.push(rows[i].clone());
            assert(kept.deep_view() =~= before.push(all[i as int]));
        }
        i = i + 1;
    }
    assert(all.take(rows.len() as int) =~= all);
    kept
}

/// The row as the answer to a lookup of `id`: the row itself where it carries
/// the id and is valid.
pub fn accept_row(row: QueueConfig, id: i32) -> (queue: Option<QueueConfig>)
    ensures
        queue == if row.id == id && row@.valid() {
            Some(row)
        } else {
            None
        },
{
    if row.id == id && row.is_valid() {
        Some(row)
    } else {
        None
    }
}

/// The database behind the registry: the table of queues, asked anew for
/// every answer.
pub struct Database<T: QueueTable + ?Sized> {
    config: DatabaseConfig,
    answered: Ghost<Seq<QueueConfigView>>,
    opened: Ghost<Seq<Seq<char>>>,
    table: Box<T>,
}

impl<T: QueueTable + ?Sized> Database<T> {
    /// The configuration the source was made with.
    pub closed spec fn config(&self) -> DatabaseConfig {
        self.config
    }

    /// The addresses that the source has handed to its driver to open the
    /// pool anew, oldest first.
    pub closed spec fn reopened(&self) -> Seq<Seq<char>> {
        self.opened@
    }

    /// A source over the given driver, whose pool the caller has opened under
    /// [`Database::pool`].
    pub fn new(config: DatabaseConfig, table: Box<T>) -> (database: Database<T>)
        ensures
            database.config() == config,
            database.listed() == Seq::<QueueConfigView>::empty(),
            database.reopened() == Seq::<Seq<char>>::empty(),
    {
        Database { config, answered: Ghost(Seq::empty()), opened: Ghost(Seq::empty()), table }
    }

    /// Address under which the connection pool of `config` is opened.
    pub fn pool(config: &DatabaseConfig) -> (url: String)
        ensures
            url@ == database_url(config),
    {
        let port = match config.port {
            Some(port) => port,
            None => DEFAULT_PORT,
        };
        let mut url = String::from_str("mysql://");
        url.append(config.user.as_str());
        url.append(":");
        url.append(config.password.as_str());
        url.append("@");
        url.append(config.host.as_str());
        url.append(":");
        push_decimal(&mut url, port);
        url.append("/");
        url.append(config.db_name.as_str());
        url
    }

    /// Opens the connection pool anew: the driver is handed the address of
    /// the source's configuration, once.
    pub fn reconnect(&mut self)
        ensures
            final(self).config() == old(self).config(),
            final(self).listed() == old(self).listed(),
            final(self).reopened() == old(self).reopened().push(database_url(&old(self).config())),
    {
        let url = Database::<T>::pool(&self.config);
        self.table.connect(url.as_str());
        self.opened = Ghost(self.opened@.push(url@));
    }

    /// The first step of a query.
    pub fn begin(&self) -> (step: DatabaseStep)
        ensures
            step == first_step(retries_of(&self.config())),
    {
        let retries = match self.config.retries {
            Some(retries) => retries,
            None => DEFAULT_RETRIES,
        };
        if 1 < retries {
            DatabaseStep::Query(1)
        } else {
            DatabaseStep::GiveUp
        }
    }

    /// The step after the attempt with the given number failed, be it for the
    /// pool or for the query.
    pub fn retry(&self, attempt: i32) -> (step: DatabaseStep)
        ensures
            step == step_after_failure(retries_of(&self.config()), attempt),
    {
        let retries = match self.config.retries {
            Some(retries) => retries,
            None => DEFAULT_RETRIES,
        };
        if attempt == 1 {
            if 2 < retries {
                DatabaseStep::ReconnectAndQuery(2)
            } else {
                DatabaseStep::ReconnectAndGiveUp
            }
        } else {
            DatabaseStep::Fatal
        }
    }

    /// Does what a step asks for before its query, and says which attempt the
    /// query is, if the step has one.
    fn prepare(&mut self, step: DatabaseStep) -> (attempt: Option<i32>)
        ensures
            final(self).config() == old(self).config(),
            final(self).listed() == old(self).listed(),
            attempt == match step {
                DatabaseStep::Query(attempt) | DatabaseStep::ReconnectAndQuery(attempt) => Some(
                    attempt,
                ),
                _ => None::<i32>,
            },
            final(self).reopened() == match step {
                DatabaseStep::ReconnectAndQuery(_) | DatabaseStep::ReconnectAndGiveUp => old(self).reopened().push(database_url(&old(self).config())),
                _ => old(self).reopened(),
            },
    {
        match step {
            DatabaseStep::Query(attempt) => Some(attempt),
            DatabaseStep::ReconnectAndQuery(attempt) => {
                self.reconnect();
                Some(attempt)
            },
            DatabaseStep::ReconnectAndGiveUp => {
                self.reconnect();
                None
            },
            DatabaseStep::GiveUp => None,
            DatabaseStep::Fatal => {
                self.table.give_up();
                None
            },
        }
    }
}

impl<T: QueueTable + ?Sized> QueueModel for Database<T> {
    /// What the latest answer showed of the table: the valid rows of a
    /// listing, the row of a lookup, or nothing.
    closed spec fn listed(&self) -> Seq<QueueConfigView> {
        self.answered@
    }

    /// The valid rows of the table, from the first attempt that succeeds;
    /// nothing where no attempt is left.
    fn get_queues(&mut self) -> (queues: Vec<QueueConfig>)
        ensures
            final(self).config() == old(self).config(),
            retries_of(&old(self).config()) <= 1 ==> queues.len() == 0,
            final(self).reopened() == old(self).reopened() || final(self).reopened() == old(self).reopened().push(database_url(&old(self).config())),
            retries_of(&old(self).config()) <= 1 ==> final(self).reopened() == old(self).reopened(),
    {
        let mut step = self.begin();
        loop
            invariant
                self.config() == old(self).config(),
                retries_of(&self.config()) <= 1 ==> step == DatabaseStep::GiveUp,
                step matches DatabaseStep::Query(attempt) ==> attempt == 1,
                step matches DatabaseStep::ReconnectAndQuery(attempt) ==> attempt == 2,
                self.reopened() == old(self).reopened() || (step == DatabaseStep::Fatal
                    && self.reopened() == old(self).reopened().push(
                    database_url(&old(self).config()),
                )),
            decreases attempts_left(step),
        {
            match self.prepare(step) {
                Some(attempt) => match self.table.load() {
                    Some(rows) => {
                        let queues = keep_valid(rows);
                        self.answered = Ghost(queues.deep_view());
                        return queues;
                    },
                    None => {
                        step = self.retry(attempt);
                    },
                },
                None => {
                    self.answered = Ghost(Seq::empty());
                    let queues: Vec<QueueConfig> = Vec::new();
                    assert(queues.deep_view() =~= Seq::<QueueConfigView>::empty());
                    return queues;
                },
            }
        }
    }

    /// The row with the given id, from the first attempt that succeeds, where
    /// it is valid and carries the id; nothing otherwise.
    fn get_queue(&mut self, id: i32) -> (queue: Option<QueueConfig>)
        ensures
            final(self).config() == old(self).config(),
            retries_of(&old(self).config()) <= 1 ==> queue is None,
            final(self).reopened() == old(self).reopened() || final(self).reopened() == old(self).reopened().push(database_url(&old(self).config())),
            retries_of(&old(self).config()) <= 1 ==> final(self).reopened() == old(self).reopened(),
    {
        let mut step = self.begin();
        loop
            invariant
                self.config() == old(self).config(),
                retries_of(&self.config()) <= 1 ==> step == DatabaseStep::GiveUp,
                step matches DatabaseStep::Query(attempt) ==> attempt == 1,
                step matches DatabaseStep::ReconnectAndQuery(attempt) ==> attempt == 2,
                self.reopened() == old(self).reopened() || (step == DatabaseStep::Fatal
                    && self.reopened() == old(self).reopened().push(
                    database_url(&old(self).config()),
                )),
            decreases attempts_left(step),
        {
            match self.prepare(step) {
                Some(attempt) => match self.table.find(id) {
                    Some(row) => {
                        let queue = accept_row(row, id);
                        let ghost shown = match queue.deep_view() {
                            Some(row) => Seq::<QueueConfigView>::empty().push(row),
                            None => Seq::<QueueConfigView>::empty(),
                        };
                        self.answered = Ghost(shown);
                        assert(queue is Some ==> shown.drop_first() =~= Seq::<
                            QueueConfigView,
                        >::empty());
                        return queue;
                    },
                    None => {
                        step = self.retry(attempt);
                    },
                },
                None => {
                    self.answered = Ghost(Seq::empty());
                    return None;
                },
            }
        }
    }
}

/// A query is tried at most twice, and the pool is opened anew at most once
/// in between: no step follows a fatal one, and the only attempt that can
/// follow the first is the second.
pub proof fn query_is_tried_twice_at_most(retries: i32, attempt: i32)
    ensures
        first_step(retries) == DatabaseStep::Query(1) || first_step(retries)
            == DatabaseStep::GiveUp,
        step_after_failure(retries, attempt) matches DatabaseStep::ReconnectAndQuery(second)
            ==> attempt == 1 && second == 2 && second < retries,
        attempt != 1 ==> step_after_failure(retries, attempt) == DatabaseStep::Fatal,
        first_step(retries) matches DatabaseStep::Query(first) ==> first < retries,
{
}

} // verus!
