//! Where a job's archive goes and how it is set up: its file name, its gzip
//! level, its filters, and the names of the files inside it.

use vstd::prelude::*;
use crate::compression_level::{CompressionLevel, spec_gzip_level};
use crate::config::{
    Item, Nickname, WorkingPath, ConfigValueError, config_error_message, working_path_error_message,
};
use crate::error::SafetyNetError;
use crate::clock::{ClockReading, current_timestamp};
use crate::file_filter::{RegexRegistry, build_regex_registry, regex_set_build_error, case_insensitive, chosen_rules};

verus! {

/// A character of an RFC 3339 timestamp in seconds with a `Z` offset: an
/// ASCII digit, or one of `-`, `+`, `T`, `:`, `Z`.
pub open spec fn is_timestamp_char(c: char) -> bool {
    ('0' <= c && c <= '9') || c == '-' || c == '+' || c == 'T' || c == ':' || c == 'Z'
}

/// Text made only of timestamp characters.
pub open spec fn is_timestamp_text(ts: Seq<char>) -> bool {
    forall|i: int| 0 <= i < ts.len() ==> is_timestamp_char(#[trigger] ts[i])
}

/// The RFC 3339 shape `YYYY-MM-DDTHH:MM:SSZ` of a UTC time in seconds whose
/// year lies in 0 to 9999.
pub open spec fn is_rfc3339_seconds(ts: Seq<char>) -> bool {
    &&& ts.len() == 20
    &&& ts[4] == '-' && ts[7] == '-' && ts[10] == 'T' && ts[13] == ':' && ts[16] == ':' && ts[19] == 'Z'
    &&& forall|i: int|
        0 <= i < 20 && i != 4 && i != 7 && i != 10 && i != 13 && i != 16 && i != 19 ==> '0' <= #[trigger] ts[i]
            && ts[i] <= '9'
}

/// A timestamp as the clock gives it: timestamp characters only, in the
/// shape `YYYY-MM-DDTHH:MM:SSZ`, or, for a year outside 0 to 9999, longer and
/// led by its sign.
pub open spec fn is_clock_timestamp(ts: Seq<char>) -> bool {
    is_timestamp_text(ts) && (is_rfc3339_seconds(ts) || (ts.len() > 20 && (ts[0] == '+' || ts[0] == '-')))
}

/// `dir` joined with `name`, as `std::path::Path::join` does on Unix: an
/// absolute `name` replaces `dir`; otherwise a `/` is put between the two
/// unless `dir` is empty or already ends with one.
pub open spec fn join_path(dir: Seq<char>, name: Seq<char>) -> Seq<char> {
    if name.len() > 0 && name[0] == '/' {
        name
    } else if dir.len() == 0 || dir.last() == '/' {
        dir + name
    } else {
        dir + "/"@ + name
    }
}

/// The file name of a job's archive: `<nickname>-<timestamp>.tar.gz`.
pub open spec fn archive_file_name(nickname: Seq<char>, timestamp: Seq<char>) -> Seq<char> {
    nickname + "-"@ + timestamp + ".tar.gz"@
}

/// The path of a job's archive inside `dir`.
pub open spec fn archive_path(dir: Seq<char>, nickname: Seq<char>, timestamp: Seq<char>) -> Seq<char> {
    join_path(dir, archive_file_name(nickname, timestamp))
}

/// A job's archive lies directly inside its output directory: its file name
/// is a single path component (it holds no `/`), starts with the nickname
/// and ends with `.tar.gz`, and is put after the directory and a separator.
pub proof fn lemma_archive_inside_directory(dir: Seq<char>, nickname: Seq<char>, timestamp: Seq<char>)
    requires
        crate::config::is_valid_nickname(nickname),
        is_timestamp_text(timestamp),
    ensures
        forall|i: int| 0 <= i < archive_file_name(nickname, timestamp).len()
            ==> archive_file_name(nickname, timestamp)[i] != '/',
        archive_file_name(nickname, timestamp).subrange(0, nickname.len() as int) == nickname,
        archive_file_name(nickname, timestamp).skip((nickname.len() + 1 + timestamp.len()) as int) == ".tar.gz"@,
        archive_path(dir, nickname, timestamp) == if dir.len() == 0 || dir.last() == '/' {
            dir + archive_file_name(nickname, timestamp)
        } else {
            dir + "/"@ + archive_file_name(nickname, timestamp)
        },
{
    reveal_strlit("-");
    reveal_strlit(".tar.gz");
    let name = archive_file_name(nickname, timestamp);
    let a = nickname.len() as int;
    let b = a + 1 + timestamp.len();
    assert forall|i: int| 0 <= i < name.len() implies name[i] != '/' by {
        if i < a {
            assert(name[i] == nickname[i]);
            assert(crate::config::is_nickname_char(nickname[i]));
        } else if i == a {
            assert(name[i] == '-');
        } else if i < b {
            assert(name[i] == timestamp[i - a - 1]);
            assert(is_timestamp_char(timestamp[i - a - 1]));
        } else {
            assert(name[i] == ".tar.gz"@[i - b]);
        }
    }
    assert(name.subrange(0, a) =~= nickname);
    assert(name.skip(b) =~= ".tar.gz"@);
    assert(name[0] == nickname[0]);
}

/// Joins `name` onto `dir` as `Path::join` does on Unix.
pub fn join_path_text(dir: &str, name: &str) -> (r: String)
    ensures
        r@ == join_path(dir@, name@),
{
    let n = name.unicode_len();
    let d = dir.unicode_len();
    if n > 0 && name.get_char(0) == '/' {
        return String::from_str(name);
    }
    if d == 0 || dir.get_char(d - 1) == '/' {
        String::from_str(dir).concat(name)
    } else {
        String::from_str(dir).concat("/").concat(name)
    }
}

/// The file an archive is written to.
pub struct Archive(String);

impl View for Archive {
    type V = Seq<char>;

    closed spec fn view(&self) -> Seq<char> {
        self.0@
    }
}

impl Archive {
    /// The archive of job `nickname` in `output_directory`, stamped with `timestamp`.
    pub fn named(nickname: &Nickname, output_directory: &WorkingPath, timestamp: &str) -> (a: Archive)
        ensures
            a@ == archive_path(output_directory@, nickname@, timestamp@),
    {
        let name = String::from_str(nickname.as_str()).concat("-").concat(timestamp).concat(".tar.gz");
        Archive(join_path_text(output_directory.as_str(), name.as_str()))
    }

    /// The archive of job `nickname` in `output_directory`, stamped with the
    /// current UTC time in RFC 3339 seconds.
    pub fn new(nickname: &Nickname, output_directory: &WorkingPath) -> (a: Archive)
        ensures
            exists|c: ClockReading| is_clock_timestamp(#[trigger] c.text()) && a@ == archive_path(
                output_directory@,
                nickname@,
                c.text(),
            ),
    {
        let reading = current_timestamp();
        assert(is_clock_timestamp(reading.text()));
        Archive::named(nickname, output_directory, reading.as_str())
    }

    /// The archive's path.
    pub fn path(&self) -> (s: &str)
        ensures
            s@ == self@,
    {
        self.0.as_str()
    }
}

/// The compiled include and exclude rules of a job.
pub struct FileFilters {
    pub include_rgx: RegexRegistry,
    pub exclude_rgx: RegexRegistry,
}

/// What a job needs before it writes: the archive file, the gzip level, and
/// its filters, or the error that compiling them gave. The filters are
/// compiled after the archive file is chosen, and their failure is reported
/// only once the archive file has been created.
pub struct ArchivePlan {
    pub archive: Archive,
    pub compression_level: u32,
    pub filters: Result<FileFilters, SafetyNetError>,
}

/// The directory a job writes to: its own, or `.` when it names none.
pub open spec fn output_directory_of(config: Item) -> Seq<char> {
    match config.output_directory {
        Some(d) => d@,
        None => "."@,
    }
}

/// The compression a job uses: its own, or fast when it names none.
pub open spec fn compression_of(config: Item) -> CompressionLevel {
    match config.compression_level {
        Some(c) => c,
        None => CompressionLevel::Fast,
    }
}

/// The include patterns a job compiles: its rules, or `.*`, each made case-insensitive.
pub open spec fn include_patterns_of(config: Item) -> Seq<Seq<char>> {
    case_insensitive(chosen_rules(config.include_rules, seq![".*"@]))
}

/// The exclude patterns a job compiles: its rules, or none, each made case-insensitive.
pub open spec fn exclude_patterns_of(config: Item) -> Seq<Seq<char>> {
    case_insensitive(chosen_rules(config.exclude, Seq::empty()))
}

/// The plan of `config` once the archive's timestamp is known.
pub open spec fn plan_matches(plan: ArchivePlan, config: Item, timestamp: Seq<char>) -> bool {
    &&& plan.archive@ == archive_path(output_directory_of(config), config.nickname@, timestamp)
    &&& plan.compression_level == spec_gzip_level(compression_of(config))
    &&& (plan.filters is Ok) == (regex_set_build_error(include_patterns_of(config)) is None
        && regex_set_build_error(exclude_patterns_of(config)) is None)
    &&& regex_set_build_error(include_patterns_of(config)) matches Some(msg) ==> (plan.filters matches Err(e)
        && e.0@ == msg)
    &&& regex_set_build_error(include_patterns_of(config)) is None ==> (regex_set_build_error(
        exclude_patterns_of(config),
    ) matches Some(msg) ==> (plan.filters matches Err(e) && e.0@ == msg))
    &&& plan.filters matches Ok(f) ==> f.include_rgx@ == include_patterns_of(config)
        && f.exclude_rgx@ == exclude_patterns_of(config)
}

/// The gzip level of a job's plan follows the compression the job names:
/// `fast` gives 1, `best` gives 9, and a job that names none gets 1.
pub proof fn lemma_plan_level_follows_job(plan: ArchivePlan, config: Item, timestamp: Seq<char>)
    requires
        plan_matches(plan, config, timestamp),
    ensures
        config.compression_level == Some(CompressionLevel::Fast) ==> plan.compression_level == 1,
        config.compression_level == Some(CompressionLevel::Best) ==> plan.compression_level == 9,
        config.compression_level is None ==> plan.compression_level == 1,
{
}

/// Sets up the archive of `config`, given what the file system said of the
/// current directory (`default_dir`, used when the job names no output
/// directory) and the timestamp to stamp it with. A missing current directory
/// fails the job with that path's error, whether or not the job needs it.
pub fn plan_archive(config: &Item, default_dir: Result<WorkingPath, ConfigValueError>, timestamp: &str) -> (r: Result<
    ArchivePlan,
    SafetyNetError,
>)
    requires
        default_dir matches Ok(d) ==> d@ == "."@,
    ensures
        default_dir matches Err(e) ==> (r matches Err(err) && err.0@ == config_error_message(e)),
        default_dir is Ok ==> (r matches Ok(plan) && plan_matches(plan, *config, timestamp@)),
        default_dir is Ok && config.include_rules is None && config.exclude is None ==> (r matches Ok(plan)
            && plan.filters is Ok),
{
    let default_path = match default_dir {
        Ok(path) => path,
        Err(err) => {
            return Err(err.into_error());
        },
    };
    let output_directory = match &config.output_directory {
        Some(dir) => dir,
        None => &default_path,
    };
    let level = match &config.compression_level {
        Some(value) => *value,
        None => CompressionLevel::Fast,
    };
    let archive = Archive::named(&config.nickname, output_directory, timestamp);
    let compression_level = level.gzip_level();
    let mut include_default: Vec<String> = Vec::new();
    include_default.push(String::from_str(".*"));
    assert(crate::text::texts(include_default@) =~= seq![".*"@]);
    proof {
        if config.include_rules is None {
            crate::file_filter::lemma_default_include_matches_all(config.include_rules);
        }
    }
    let filters = match build_regex_registry(&config.include_rules, include_default) {
        Ok(include_rgx) => {
            let none: Vec<String> = Vec::new();
            assert(crate::text::texts(none@) =~= Seq::<Seq<char>>::empty());
            match build_regex_registry(&config.exclude, none) {
                Ok(exclude_rgx) => Ok(FileFilters { include_rgx, exclude_rgx }),
                Err(err) => Err(err),
            }
        },
        Err(err) => Err(err),
    };
    Ok(ArchivePlan { archive, compression_level, filters })
}

/// Sets up the archive of `config`: it goes into the job's output directory
/// (or the current one), is named after the job and the current time, and is
/// compressed at the job's level; the job's rules are compiled. Fails, with
/// the path's message, only when the current directory does not exist.
pub fn create_archive(config: &Item) -> (r: Result<ArchivePlan, SafetyNetError>)
    ensures
        r matches Err(err) ==> err.0@ == working_path_error_message("."@),
        r matches Ok(plan) ==> exists|c: ClockReading| is_clock_timestamp(#[trigger] c.text()) && plan_matches(
            plan,
            *config,
            c.text(),
        ),
{
    let default_dir = WorkingPath::new(".");
    let reading = current_timestamp();
    assert(is_clock_timestamp(reading.text()));
    plan_archive(config, default_dir, reading.as_str())
}

} // verus!

verus! {

/// What `std::path::Path::strip_prefix` answers for `path` and `base`: what
/// is left of `path` once `base` is taken off its front, component by
/// component, shown as text; or, when `base` is not a leading part of `path`,
/// the text of its error.
pub uninterp spec fn strip_prefix_outcome(path: Seq<char>, base: Seq<char>) -> Result<Seq<char>, Seq<char>>;

/// An outcome of two texts, each taken by its characters.
pub open spec fn outcome_texts(r: Result<String, String>) -> Result<Seq<char>, Seq<char>> {
    match r {
        Ok(a) => Ok(a@),
        Err(b) => Err(b@),
    }
}

/// `std::path::Path::strip_prefix` of `path` by `base`, the remainder shown
/// by `Path::display` and the error by its `to_string`. std documents an error
/// exactly when `base` is not a prefix of `path`; the outcome is named by
/// `strip_prefix_outcome`.
#[verifier::external_body]
fn strip_path_prefix(path: &str, base: &str) -> (r: Result<String, String>)
    ensures
        strip_prefix_outcome(path@, base@) == outcome_texts(r),
{
    match std::path::Path::new(path).strip_prefix(base) {
        Ok(rel) => Ok(rel.display().to_string()),
        Err(e) => Err(e.to_string()),
    }
}

/// The name a file gets inside the archive: its path relative to the job's
/// input directory, after `./`. A file outside the input directory fails the
/// job, with the text of the path error.
pub fn tar_entry_name(file: &str, input_path: &WorkingPath) -> (r: Result<String, SafetyNetError>)
    ensures
        strip_prefix_outcome(file@, input_path@) matches Ok(rel) ==> (r matches Ok(name) && name@ == "./"@
            + rel),
        strip_prefix_outcome(file@, input_path@) matches Err(msg) ==> (r matches Err(e) && e.0@ == msg),
{
    match strip_path_prefix(file, input_path.as_str()) {
        Ok(rel) => Ok(String::from_str("./").concat(rel.as_str())),
        Err(msg) => Err(SafetyNetError(msg)),
    }
}

} // verus!
