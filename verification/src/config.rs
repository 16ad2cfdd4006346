//! The values a job entry of the configuration file holds, and the rules that
//! accept or refuse them.

use vstd::prelude::*;
use crate::compression_level::CompressionLevel;
use crate::error::SafetyNetError;
use crate::disk::{PathAnswer, path_exists};

verus! {

/// A configuration value that the rules refuse.
pub enum ConfigValueError {
    /// The nickname holds something other than lowercase letters and digits, or nothing.
    InvalidNickname(String),
    /// Nothing exists at the path.
    InvalidWorkingPath(String),
}

/// The message shown for a refused nickname.
pub open spec fn nickname_error_message(nick: Seq<char>) -> Seq<char> {
    "Invalid nickname '"@ + nick + "': must contain only lowercase letters and digits"@
}

/// The message shown for a path where nothing exists.
pub open spec fn working_path_error_message(path: Seq<char>) -> Seq<char> {
    "Invalid path '"@ + path + "': must exists on filesystem"@
}

/// The message shown for a refused value.
pub open spec fn config_error_message(e: ConfigValueError) -> Seq<char> {
    match e {
        ConfigValueError::InvalidNickname(nick) => nickname_error_message(nick@),
        ConfigValueError::InvalidWorkingPath(path) => working_path_error_message(path@),
    }
}

impl ConfigValueError {
    /// The text shown to the user for this error.
    pub fn message(&self) -> (r: String)
        ensures
            r@ == config_error_message(*self),
    {
        match self {
            ConfigValueError::InvalidNickname(nick) => {
                let s = String::from_str("Invalid nickname '");
                let s = s.concat(nick.as_str());
                s.concat("': must contain only lowercase letters and digits")
            },
            ConfigValueError::InvalidWorkingPath(path) => {
                let s = String::from_str("Invalid path '");
                let s = s.concat(path.as_str());
                s.concat("': must exists on filesystem")
            },
        }
    }

    /// The error reported for a job whose configuration value was refused.
    pub fn into_error(self) -> (r: SafetyNetError)
        ensures
            r.0@ == config_error_message(self),
    {
        SafetyNetError(self.message())
    }
}

/// A character that a nickname may hold: a lowercase ASCII letter or an ASCII digit.
pub open spec fn is_nickname_char(c: char) -> bool {
    ('a' <= c && c <= 'z') || ('0' <= c && c <= '9')
}

/// A valid nickname: at least one character, each a lowercase letter or a digit
/// (`^[a-z0-9]+$`).
pub open spec fn is_valid_nickname(s: Seq<char>) -> bool {
    s.len() > 0 && forall|i: int| 0 <= i < s.len() ==> is_nickname_char(#[trigger] s[i])
}

/// The name of a job; also the first part of its archive's file name.
pub struct Nickname(String);

impl View for Nickname {
    type V = Seq<char>;

    closed spec fn view(&self) -> Seq<char> {
        self.0@
    }
}

impl Nickname {
    #[verifier::type_invariant]
    closed spec fn holds_valid_name(self) -> bool {
        is_valid_nickname(self.0@)
    }

    /// Accepts `raw` as a nickname when it is valid, and refuses it with
    /// `InvalidNickname(raw)` otherwise.
    pub fn new(raw: &str) -> (r: Result<Nickname, ConfigValueError>)
        ensures
            is_valid_nickname(raw@) ==> (r matches Ok(n) && n@ == raw@),
            !is_valid_nickname(raw@) ==> (r matches Err(ConfigValueError::InvalidNickname(s)) && s@ == raw@),
    {
        let n = raw.unicode_len();
        let mut ok = n > 0;
        let mut i: usize = 0;
        while i < n && ok
            invariant
                i <= n,
                n == raw@.len(),
                ok ==> n > 0,
                ok ==> forall|j: int| 0 <= j < i ==> is_nickname_char(#[trigger] raw@[j]),
                !ok ==> !is_valid_nickname(raw@),
            decreases n - i,
        {
            let c = raw.get_char(i);
            if !(('a' <= c && c <= 'z') || ('0' <= c && c <= '9')) {
                assert(!is_nickname_char(raw@[i as int]));
                ok = false;
            }
            i += 1;
        }
        if ok {
            assert(is_valid_nickname(raw@));
            Ok(Nickname(String::from_str(raw)))
        } else {
            Err(ConfigValueError::InvalidNickname(String::from_str(raw)))
        }
    }

    /// The nickname's text, which is always a valid nickname.
    pub fn as_str(&self) -> (s: &str)
        ensures
            s@ == self@,
            is_valid_nickname(s@),
    {
        proof {
            use_type_invariant(self);
        }
        self.0.as_str()
    }
}

/// A path that existed on the file system when it was accepted, with the
/// file system's answer that confirmed it.
pub struct WorkingPath {
    path: String,
    confirmation: Ghost<PathAnswer>,
}

impl View for WorkingPath {
    type V = Seq<char>;

    closed spec fn view(&self) -> Seq<char> {
        self.path@
    }
}

impl WorkingPath {
    /// Accepts `raw` when something exists there, and refuses it with
    /// `InvalidWorkingPath(raw)` otherwise. Whether it exists is asked of the
    /// file system, about `raw`; either way the result carries `raw` unchanged.
    pub fn new(raw: &str) -> (r: Result<WorkingPath, ConfigValueError>)
        ensures
            r matches Ok(p) ==> p@ == raw@,
            r matches Ok(p) ==> p.confirmation().asked() == raw@ && p.confirmation().said_exists(),
            r matches Err(e) ==> (e matches ConfigValueError::InvalidWorkingPath(s) && s@ == raw@),
    {
        let answer = path_exists(raw);
        WorkingPath::checked(raw, answer)
    }

    /// Accepts `raw` exactly when the file system's answer about `raw` says
    /// that something is there.
    pub fn checked(raw: &str, answer: PathAnswer) -> (r: Result<WorkingPath, ConfigValueError>)
        requires
            answer.asked() == raw@,
        ensures
            answer.said_exists() ==> (r matches Ok(p) && p@ == raw@ && p.confirmation() == answer),
            !answer.said_exists() ==> (r matches Err(ConfigValueError::InvalidWorkingPath(s)) && s@ == raw@),
    {
        if answer.found() {
            Ok(WorkingPath { path: String::from_str(raw), confirmation: Ghost(answer) })
        } else {
            Err(ConfigValueError::InvalidWorkingPath(String::from_str(raw)))
        }
    }

    /// The file system's answer that accepted this path.
    pub closed spec fn confirmation(&self) -> PathAnswer {
        self.confirmation@
    }

    /// The path's text.
    pub fn as_str(&self) -> (s: &str)
        ensures
            s@ == self@,
    {
        self.path.as_str()
    }
}

/// One job of the configuration file.
pub struct Item {
    pub nickname: Nickname,
    pub input_path: WorkingPath,
    pub output_directory: Option<WorkingPath>,
    pub compression_level: Option<CompressionLevel>,
    pub exclude: Option<Vec<String>>,
    pub include_rules: Option<Vec<String>>,
}

} // verus!

verus! {

/// The entries of a configuration file that were read as jobs, in file order.
pub open spec fn valid_jobs(entries: Seq<Result<Item, String>>) -> Seq<Item>
    decreases entries.len(),
{
    if entries.len() == 0 {
        Seq::empty()
    } else {
        let rest = valid_jobs(entries.drop_last());
        match entries.last() {
            Ok(item) => rest.push(item),
            Err(_) => rest,
        }
    }
}

/// The messages of the entries that could not be read as jobs, in file order.
pub open spec fn entry_errors(entries: Seq<Result<Item, String>>) -> Seq<Seq<char>>
    decreases entries.len(),
{
    if entries.len() == 0 {
        Seq::empty()
    } else {
        let rest = entry_errors(entries.drop_last());
        match entries.last() {
            Ok(_) => rest,
            Err(msg) => rest.push(msg@),
        }
    }
}

/// The jobs of a configuration file and the entries it skips.
pub struct JobList {
    /// The entries that were read as jobs, in file order.
    pub jobs: Vec<Item>,
    /// Why each skipped entry was refused, in file order.
    pub skipped: Vec<String>,
}

/// Keeps the entries that were read as jobs, in file order, and the message
/// of each entry that was not, to be reported and skipped.
pub fn select_jobs(entries: Vec<Result<Item, String>>) -> (r: JobList)
    ensures
        r.jobs@ == valid_jobs(entries@),
        crate::text::texts(r.skipped@) == entry_errors(entries@),
{
    let ghost all = entries@;
    let mut jobs: Vec<Item> = Vec::new();
    let mut skipped: Vec<String> = Vec::new();
    for e in it: entries.into_iter()
        invariant
            it.seq() == all,
            jobs@ == valid_jobs(all.take(it.index() as int)),
            crate::text::texts(skipped@) == entry_errors(all.take(it.index() as int)),
    {
        let ghost k = it.index() as int;
        proof {
            assert(all.take(k + 1).drop_last() =~= all.take(k));
            assert(all.take(k + 1).last() == all[k]);
        }
        match e {
            Ok(item) => jobs.push(item),
            Err(msg) => {
                let ghost before = skipped@;
                skipped.push(msg);
                assert(crate::text::texts(skipped@) =~= crate::text::texts(before).push(skipped@.last()@));
            },
        }
    }
    assert(all.take(all.len() as int) =~= all);
    JobList { jobs, skipped }
}

} // verus!

verus! {

/// Every entry of a configuration file is either run as a job or reported
/// as skipped: the two lists together account for all entries.
pub proof fn lemma_every_entry_accounted(entries: Seq<Result<Item, String>>)
    ensures
        valid_jobs(entries).len() + entry_errors(entries).len() == entries.len(),
    decreases entries.len(),
{
    if entries.len() > 0 {
        lemma_every_entry_accounted(entries.drop_last());
    }
}

/// The characters listed one by one: the 26 lowercase ASCII letters and
/// the ten ASCII digits.
pub open spec fn is_listed_nickname_char(c: char) -> bool {
    c == 'a'
        || c == 'b'
        || c == 'c'
        || c == 'd'
        || c == 'e'
        || c == 'f'
        || c == 'g'
        || c == 'h'
        || c == 'i'
        || c == 'j'
        || c == 'k'
        || c == 'l'
        || c == 'm'
        || c == 'n'
        || c == 'o'
        || c == 'p'
        || c == 'q'
        || c == 'r'
        || c == 's'
        || c == 't'
        || c == 'u'
        || c == 'v'
        || c == 'w'
        || c == 'x'
        || c == 'y'
        || c == 'z'
        || c == '0'
        || c == '1'
        || c == '2'
        || c == '3'
        || c == '4'
        || c == '5'
        || c == '6'
        || c == '7'
        || c == '8'
        || c == '9'
}

/// A nickname may hold exactly the 26 lowercase letters `a` to `z` and the
/// ten digits `0` to `9`, and nothing else.
pub proof fn lemma_nickname_characters(c: char)
    ensures
        is_nickname_char(c) <==> is_listed_nickname_char(c),
{
}

/// A nickname is accepted exactly when it is not empty and every character
/// is one of the 26 lowercase letters or ten digits.
pub proof fn lemma_nickname_alphabet(s: Seq<char>)
    ensures
        is_valid_nickname(s) <==> (s.len() > 0 && forall|i: int|
            0 <= i < s.len() ==> is_listed_nickname_char(#[trigger] s[i])),
{
    assert forall|i: int| 0 <= i < s.len() implies (is_nickname_char(#[trigger] s[i])
        <==> is_listed_nickname_char(s[i])) by {
        lemma_nickname_characters(s[i]);
    }
}

} // verus!
