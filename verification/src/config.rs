//! The monitor's settings and the proxy accounts read from them.

use vstd::prelude::*;

verus! {

/// Everything the monitor is told at startup. The value is built once and
/// handed to the parts that need it.
#[derive(Debug, Clone)]
pub struct AppConfig {
    pub telegram_bot_id: String,
    pub telegram_group_id: String,
    pub telegram_group_thread_id: String,
    pub telegram_sender: String,
    pub telegram_receiver: String,
    pub telegram_enable: bool,
    pub telegram_env: String,
    /// Seconds without a successful fetch after which the fleet counts as down.
    pub max_success_timeout: u64,
    /// Seconds between two fetches of one worker while nothing fails.
    pub proxy_request_interval: u64,
    pub proxy_addr: String,
    pub download_urls: Vec<String>,
    /// One `username,password` entry per proxy account.
    pub proxy_acc: Vec<String>,
}

/// Why a configuration cannot be used.
#[derive(Debug, Clone, Copy, PartialEq, Eq, Structural)]
pub enum ConfigError {
    /// The account entry at `index` has no separator, so no password.
    MalformedAccount { index: usize },
}

/// What parts an account entry's name and password.
pub const SEPARATOR: char = ',';

/// The place of the first separator at or after `from`, or the entry's length
/// where none follows.
pub open spec fn field_end(entry: Seq<char>, from: int) -> int
    decreases entry.len() - from,
{
    if from < 0 || from >= entry.len() {
        entry.len() as int
    } else if entry[from] == SEPARATOR {
        from
    } else {
        field_end(entry, from + 1)
    }
}

/// Whether an entry holds a separator, and so both of its fields.
pub open spec fn well_formed_entry(entry: Seq<char>) -> bool {
    entry.contains(SEPARATOR)
}

/// The first field of an entry: what stands before its first separator.
pub open spec fn username_of(entry: Seq<char>) -> Seq<char> {
    entry.subrange(0, field_end(entry, 0))
}

/// The second field of an entry: what stands between its first separator and
/// the next one, or the end.
pub open spec fn password_of(entry: Seq<char>) -> Seq<char>
    recommends
        well_formed_entry(entry),
{
    entry.subrange(field_end(entry, 0) + 1, field_end(entry, field_end(entry, 0) + 1))
}

/// `field_end` is the first separator from `from` on: nothing before it is one,
/// and it is one itself unless the entry ends there.
pub proof fn lemma_field_end(entry: Seq<char>, from: int)
    requires
        0 <= from <= entry.len(),
    ensures
        from <= field_end(entry, from) <= entry.len(),
        forall|k: int| from <= k < field_end(entry, from) ==> entry[k] != SEPARATOR,
        field_end(entry, from) < entry.len() ==> entry[field_end(entry, from)] == SEPARATOR,
    decreases entry.len() - from,
{
    if from < entry.len() && entry[from] != SEPARATOR {
        lemma_field_end(entry, from + 1);
    }
}

/// An entry is well formed exactly if its first field ends before the entry
/// does.
pub proof fn lemma_well_formed_iff_field_ends(entry: Seq<char>)
    ensures
        well_formed_entry(entry) <==> field_end(entry, 0) < entry.len(),
{
    lemma_field_end(entry, 0);
    if field_end(entry, 0) < entry.len() {
        assert(entry[field_end(entry, 0)] == SEPARATOR);
    }
}

/// Looks for the first separator at or after `from`. Beyond the entry's end
/// there is nothing to find, and the answer is the entry's length.
pub fn find_field_end(entry: &str, from: usize) -> (end: usize)
    ensures
        end == field_end(entry@, from as int),
        end <= entry@.len(),
        from <= entry@.len() ==> from <= end,
{
    let len: usize = entry.unicode_len();
    let mut at: usize = if from < len {
        from
    } else {
        len
    };
    while at < len && entry.get_char(at) != SEPARATOR
        invariant
            len == entry@.len(),
            at <= len,
            from <= len ==> from <= at,
            field_end(entry@, from as int) == field_end(entry@, at as int),
        decreases len - at,
    {
        at = at + 1;
    }
    at
}

/// Parts one `username,password` entry. Fields after the second are ignored.
pub fn parse_account(entry: &str) -> (account: Option<(String, String)>)
    ensures
        match account {
            Some((username, password)) => well_formed_entry(entry@) && username@ == username_of(
                entry@,
            ) && password@ == password_of(entry@),
            None => !well_formed_entry(entry@),
        },
{
    let len: usize = entry.unicode_len();
    let first: usize = find_field_end(entry, 0);
    proof {
        lemma_well_formed_iff_field_ends(entry@);
    }
    if first >= len {
        return None;
    }
    let second: usize = find_field_end(entry, first + 1);
    let username = String::from_str(entry.substring_char(0, first));
    let password = String::from_str(entry.substring_char(first + 1, second));
    Some((username, password))
}

/// Whether `accounts` are the names and passwords of `entries`, one for one.
pub open spec fn accounts_match(
    accounts: Seq<(String, String)>,
    entries: Seq<String>,
) -> bool {
    &&& accounts.len() == entries.len()
    &&& forall|i: int|
        0 <= i < accounts.len() ==> (#[trigger] accounts[i]).0@ == username_of(entries[i]@)
            && accounts[i].1@ == password_of(entries[i]@)
}

/// Whether `index` is the first entry that is not well formed.
pub open spec fn first_malformed(entries: Seq<String>, index: int) -> bool {
    &&& 0 <= index < entries.len()
    &&& !well_formed_entry(entries[index]@)
    &&& forall|j: int| 0 <= j < index ==> well_formed_entry(#[trigger] entries[j]@)
}

/// Reads the proxy accounts out of the configuration, in its order. One entry
/// without a separator makes the whole configuration unusable; the error names
/// the first such entry.
pub fn get_proxy_credentials(config: &AppConfig) -> (accounts: Result<
    Vec<(String, String)>,
    ConfigError,
>)
    ensures
        match accounts {
            Ok(list) => accounts_match(list@, config.proxy_acc@) && forall|j: int|
                0 <= j < config.proxy_acc.len() ==> well_formed_entry(
                    #[trigger] config.proxy_acc[j]@,
                ),
            Err(ConfigError::MalformedAccount { index }) => first_malformed(
                config.proxy_acc@,
                index as int,
            ),
        },
{
    let mut list: Vec<(String, String)> = Vec::new();
    let mut at: usize = 0;
    while at < config.proxy_acc.len()
        invariant
            at <= config.proxy_acc.len(),
            accounts_match(list@, config.proxy_acc@.subrange(0, at as int)),
            forall|j: int| 0 <= j < at ==> well_formed_entry(#[trigger] config.proxy_acc[j]@),
        decreases config.proxy_acc.len() - at,
    {
        match parse_account(config.proxy_acc[at].as_str()) {
            Some(account) => {
                list.push(account);
            },
            None => {
                return Err(ConfigError::MalformedAccount { index: at });
            },
        }
        at = at + 1;
    }
    Ok(list)
}

} // verus!
