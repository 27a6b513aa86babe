//! Configuration of the broker connection, the queues and the optional
//! database that lists them.

pub mod database;
pub mod file;
pub mod queue;

use vstd::prelude::*;
use vstd::string::StringExecFns;

use crate::config::queue::config::QueueConfig;
use crate::text::{replace_all, replaced};

verus! {

/// Everything the client is configured with.
#[derive(Clone, Debug)]
pub struct Config {
    pub rabbit: RabbitConfig,
    pub database: DatabaseConfig,
}

/// The broker and the queues to consume from it.
#[derive(Clone, Debug)]
pub struct RabbitConfig {
    pub host: String,
    pub port: u16,
    pub username: String,
    pub password: String,
    pub vhost: String,
    pub queues: Vec<QueueConfig>,
    pub queue_prefix: String,
    /// Consecutive failed runs after which the client gives up; none or zero
    /// to go on for ever.
    pub reconnections: Option<i32>,
}

/// The database that lists the queues, where one does.
#[derive(Clone, Debug)]
pub struct DatabaseConfig {
    pub enabled: bool,
    pub host: String,
    pub port: Option<i32>,
    pub user: String,
    pub password: String,
    pub db_name: String,
    /// Attempts per query; see [`crate::config::database`].
    pub retries: Option<i32>,
}

/// Name of the configuration file that every environment shares.
pub open spec fn shared_file(path: Seq<char>) -> Seq<char> {
    path + "/config.toml"@
}

/// Name of the configuration file of one environment.
pub open spec fn environment_file(path: Seq<char>, environment: Seq<char>) -> Seq<char> {
    path + "/config_"@ + environment + ".toml"@
}

/// Name of the configuration file to read: the shared one where it exists,
/// else the environment's where that exists, else the one of the environment
/// `dev`.
pub open spec fn chosen_file(
    path: Seq<char>,
    environment: Seq<char>,
    shared_exists: bool,
    environment_exists: bool,
) -> Seq<char> {
    if shared_exists {
        shared_file(path)
    } else if environment_exists {
        environment_file(path, environment)
    } else {
        environment_file(path, "dev"@)
    }
}

/// The text with the value of one variable filled in: every `"$NAME"`,
/// quotes included, becomes the quoted value.
pub open spec fn with_variable(text: Seq<char>, name: Seq<char>, value: Seq<char>) -> Seq<char> {
    replaced(text, "\"$"@ + name + "\""@, "\""@ + value + "\""@)
}

/// The text with the variables filled in one after the other, in the order
/// of the list.
pub open spec fn interpolated(text: Seq<char>, variables: Seq<(Seq<char>, Seq<char>)>) -> Seq<
    char,
>
    decreases variables.len(),
{
    if variables.len() == 0 {
        text
    } else {
        with_variable(
            interpolated(text, variables.drop_last()),
            variables.last().0,
            variables.last().1,
        )
    }
}

/// Names and values of a list of variables as texts.
pub open spec fn variables_view(variables: Seq<(String, String)>) -> Seq<(Seq<char>, Seq<char>)> {
    Seq::new(variables.len(), |i: int| (variables[i].0@, variables[i].1@))
}

impl Config {
    /// The two files whose existence decides which one is read: the shared
    /// file and the file of `environment`, both below `path`.
    pub fn candidates(environment: &str, path: &str) -> (files: (String, String))
        ensures
            files.0@ == shared_file(path@),
            files.1@ == environment_file(path@, environment@),
    {
        let mut shared = String::from_str(path);
        shared.append("/config.toml");
        let mut own = String::from_str(path);
        own.append("/config_");
        own.append(environment);
        own.append(".toml");
        (shared, own)
    }

    /// Name of the configuration file to read, given which candidates exist.
    pub fn file_name(
        environment: &str,
        path: &str,
        shared_exists: bool,
        environment_exists: bool,
    ) -> (name: String)
        ensures
            name@ == chosen_file(path@, environment@, shared_exists, environment_exists),
    {
        let (shared, own) = Config::candidates(environment, path);
        if shared_exists {
            shared
        } else if environment_exists {
            own
        } else {
            let (_, dev) = Config::candidates("dev", path);
            dev
        }
    }

    /// The configuration text with the variables of the environment filled
    /// in.
    pub fn interpolate(configuration: &str, variables: &Vec<(String, String)>) -> (text: String)
        ensures
            text@ == interpolated(configuration@, variables_view(variables@)),
    {
        let mut text = String::from_str(configuration);
        let mut i: usize = 0;
        assert(variables_view(variables@).take(0) =~= Seq::<(Seq<char>, Seq<char>)>::empty());
        while i < variables.len()
            invariant
                i <= variables.len(),
                text@ == interpolated(configuration@, variables_view(variables@).take(i as int)),
            decreases variables.len() - i,
        {
            let mut from = String::from_str("\"$");
            from.append(variables[i].0.as_str());
            from.append("\"");
            let mut to = String::from_str("\"");
            to.append(variables[i].1.as_str());
            to.append("\"");
            proof {
                let all = variables_view(variables@);
                assert(all.take(i + 1).drop_last() =~= all.take(i as int));
                assert(all.take(i + 1).last() == (variables[i as int].0@, variables[i as int].1@));
            }
            text = replace_all(text.as_str(), from.as_str(), to.as_str());
            i = i + 1;
        }
        assert(variables_view(variables@).take(variables.len() as int) =~= variables_view(
            variables@,
        ));
        text
    }
}

} // verus!
