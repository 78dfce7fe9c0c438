//! What the environment may configure, and what holds where it is silent.

use vstd::prelude::*;
use vstd::string::StringExecFns;
use crate::flavors::{cache_file_name, cache_file_name_of};
use crate::text::{join_path, joined_path};

verus! {

/// The address the service listens on where none is given.
pub open spec fn default_address() -> Seq<char> {
    "127.0.0.1:8887"@
}

/// The address the service listens on: the one given, else the default.
pub open spec fn listen_address(argument: Option<Seq<char>>) -> Seq<char> {
    match argument {
        Some(address) => address,
        None => default_address(),
    }
}

/// The file the log goes to: the file named, else the log file in the
/// directory named, else a file in the temporary directory.
pub open spec fn log_file(log: Option<Seq<char>>, log_directory: Option<Seq<char>>) -> Seq<char> {
    match log {
        Some(path) => path,
        None => match log_directory {
            Some(directory) => directory + "/wine-cask.log"@,
            None => "/tmp/decky-wine-cellar.log"@,
        },
    }
}

/// The file that caches the release list of `owner/repository`: it lies in
/// the runtime directory, else in the temporary directory.
pub open spec fn cache_file(
    runtime_directory: Option<Seq<char>>,
    owner: Seq<char>,
    repository: Seq<char>,
) -> Seq<char> {
    joined_path(
        match runtime_directory {
            Some(directory) => directory,
            None => "/tmp/"@,
        },
        cache_file_name(owner, repository),
    )
}

/// The directory that archives are unpacked in: it lies in the runtime
/// directory, else in a directory of its own under the temporary directory.
pub open spec fn staging_directory(runtime_directory: Option<Seq<char>>) -> Seq<char> {
    joined_path(
        match runtime_directory {
            Some(directory) => directory,
            None => "/tmp/decky-wine-cellar"@,
        },
        "temp"@,
    )
}

/// The address the service listens on.
pub fn get_server_address(argument: Option<String>) -> (out: String)
    ensures
        out@ == listen_address(argument.deep_view()),
{
    match argument {
        Some(address) => address,
        None => String::from_str("127.0.0.1:8887"),
    }
}

/// The file the log goes to.
pub fn log_file_path(log: Option<String>, log_directory: Option<String>) -> (out: String)
    ensures
        out@ == log_file(log.deep_view(), log_directory.deep_view()),
{
    match log {
        Some(path) => path,
        None => match log_directory {
            Some(directory) => directory.concat("/wine-cask.log"),
            None => String::from_str("/tmp/decky-wine-cellar.log"),
        },
    }
}

/// The file that caches the release list of `owner/repository`.
pub fn cache_file_path(runtime_directory: &Option<String>, owner: &str, repository: &str) -> (out:
    String)
    ensures
        out@ == cache_file(runtime_directory.deep_view(), owner@, repository@),
{
    let name = cache_file_name_of(owner, repository);
    match runtime_directory {
        Some(directory) => join_path(directory.as_str(), name.as_str()),
        None => join_path("/tmp/", name.as_str()),
    }
}

/// The directory that archives are unpacked in.
pub fn staging_directory_path(runtime_directory: &Option<String>) -> (out: String)
    ensures
        out@ == staging_directory(runtime_directory.deep_view()),
{
    match runtime_directory {
        Some(directory) => join_path(directory.as_str(), "temp"),
        None => join_path("/tmp/decky-wine-cellar", "temp"),
    }
}

} // verus!
