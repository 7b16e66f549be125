//! The logger: its configuration, the decision whether a record passes, and
//! the line that a record becomes.

use vstd::prelude::*;
use crate::clock::{get_time, time_or_empty};
use crate::filter::{filter, FilterType};
use crate::level::{format_level, get_color, level_color, level_label, LevelFilter};
use crate::rules::{
    first_applying, lemma_first_match_decides, lemma_match_found, lemma_most_permissive,
    lemma_repeated_filter_is_dead, matched_level, most_permissive, rule_applies, Rule,
};

verus! {

/// The error type of std's I/O, which a failed attempt to create the log file
/// brings along. It is only carried through.
#[verifier::external_type_specification]
#[verifier::external_body]
pub struct ExIoError(std::io::Error);

/// Errors of the logger.
#[derive(Debug)]
pub enum LoggerError {
    /// The process already has a logger.
    LoggerAlreadySet,
    /// The log file could not be created or opened.
    FileError(std::io::Error),
    /// The name given for the log file is that of a directory.
    InvalidFiname,
}

/// The configuration of a logger, as the contracts see it.
pub struct LoggerView {
    /// The filters, in the order in which they were added.
    pub filters: Seq<Rule>,
    /// Whether lines go to the log file as well as to the console.
    pub log_to_file: bool,
    /// The path of the log file.
    pub log_filename: Seq<char>,
    /// The threshold for sources to which no filter applies.
    pub default_level: LevelFilter,
    /// The strftime-style pattern of the time stamp.
    pub time_format: Seq<char>,
    /// Whether lines carry colour escape sequences.
    pub use_color: bool,
}

/// The filter that an entry of a logger's list stands for.
pub open spec fn rule_of(entry: (String, FilterType, LevelFilter)) -> Rule {
    Rule { name: entry.0@, filter_type: entry.1, level: entry.2 }
}

/// The path of the log file that a logger gets when none is given: a file in
/// the user's local data directory, named after the time at which the logger
/// was made.
pub open spec fn default_log_name(user: Seq<char>, time: Seq<char>) -> Seq<char> {
    "/home/"@ + user + "/.local/share/lunar-logging/log-"@ + time + ".log"@
}

/// The line that a record becomes: the time, the label of the level and the
/// source in square brackets, then the message and a line feed. With colour,
/// the brackets are grey and the label has the colour of the level; the
/// message is never coloured.
pub open spec fn record_line(
    use_color: bool,
    time: Seq<char>,
    level: LevelFilter,
    target: Seq<char>,
    msg: Seq<char>,
) -> Seq<char> {
    if use_color {
        "\x1b[90m[\x1b[0m"@ + time + " "@ + level_color(level) + level_label(level) + " \x1b[0m"@
            + target + "\x1b[90m]\x1b[0m "@ + msg + "\n"@
    } else {
        "["@ + time + " "@ + level_label(level) + " "@ + target + "] "@ + msg + "\n"@
    }
}

impl LoggerView {
    /// The threshold that holds for a source: the level of the first filter
    /// that applies to it, or the default level where none applies.
    pub open spec fn threshold_for(self, source: Seq<char>) -> LevelFilter {
        match matched_level(self.filters, source) {
            Some(level) => level,
            None => self.default_level,
        }
    }

    /// Whether a record of severity `level` from `source` passes: it must be
    /// at least as severe as the threshold that holds for its source.
    pub open spec fn accepts(self, source: Seq<char>, level: LevelFilter) -> bool {
        self.threshold_for(source).allows(level)
    }

    /// The line that a record becomes under this configuration.
    pub open spec fn line(
        self,
        time: Seq<char>,
        level: LevelFilter,
        target: Seq<char>,
        msg: Seq<char>,
    ) -> Seq<char> {
        record_line(self.use_color, time, level, target, msg)
    }

    /// The most permissive threshold of this configuration. No record less
    /// severe than it can pass, whatever its source.
    pub open spec fn max_level(self) -> LevelFilter {
        most_permissive(self.filters, self.default_level)
    }

    /// How enabling a logger of this configuration ends. `occupied` says
    /// whether the process already has a logger, `file` how creating and
    /// opening the log file went. A log file that is wanted and could not be
    /// had is reported first, then a place that is taken; otherwise enabling
    /// succeeds with the most permissive threshold.
    pub open spec fn enabling(self, occupied: bool, file: Result<(), std::io::Error>) -> Result<
        LevelFilter,
        LoggerError,
    > {
        if self.log_to_file && file is Err {
            Err(LoggerError::FileError(file->Err_0))
        } else if occupied {
            Err(LoggerError::LoggerAlreadySet)
        } else {
            Ok(self.max_level())
        }
    }
}

impl LoggerView {
    /// Where a filter applies to the source of a record, the first such
    /// filter decides alone: the record passes exactly when it is at least
    /// as severe as the level of that filter.
    pub proof fn lemma_first_filter_decides(self, source: Seq<char>, level: LevelFilter, i: int)
        requires
            first_applying(self.filters, source, i),
        ensures
            self.threshold_for(source) == self.filters[i].level,
            self.accepts(source, level) <==> self.filters[i].level.allows(level),
    {
        lemma_first_match_decides(self.filters, source, i);
    }

    /// Where no filter applies to the source of a record, the record passes
    /// exactly when it is at least as severe as the default level.
    pub proof fn lemma_default_decides(self, source: Seq<char>, level: LevelFilter)
        requires
            forall|j: int|
                0 <= j < self.filters.len() ==> !rule_applies(#[trigger] self.filters[j], source),
        ensures
            self.threshold_for(source) == self.default_level,
            self.accepts(source, level) <==> self.default_level.allows(level),
    {
        lemma_match_found(self.filters, source);
    }

    /// Adding a filter that repeats the name and the type of a filter that
    /// is already there changes nothing: every record passes or fails as
    /// before, whatever the level of the new filter.
    pub proof fn lemma_repeated_filter_changes_nothing(
        self,
        repeated: Rule,
        i: int,
        source: Seq<char>,
        level: LevelFilter,
    )
        requires
            0 <= i < self.filters.len(),
            self.filters[i].name == repeated.name,
            self.filters[i].filter_type == repeated.filter_type,
        ensures
            (LoggerView { filters: self.filters.push(repeated), ..self }).accepts(source, level)
                == self.accepts(source, level),
    {
        let longer = self.filters.push(repeated);
        lemma_repeated_filter_is_dead(longer, source, i, self.filters.len() as int);
        assert(longer.remove(self.filters.len() as int) =~= self.filters);
    }

    /// A record that passes would also pass if it were more severe.
    pub proof fn lemma_more_severe_passes(self, source: Seq<char>, level: LevelFilter, more: LevelFilter)
        requires
            self.accepts(source, level),
            level.allows(more),
        ensures
            self.accepts(source, more),
    {
    }

    /// Dropping the records that are less severe than the most permissive
    /// threshold loses no record that passes: whatever passes is at least as
    /// severe as that threshold.
    pub proof fn lemma_max_level_covers(self, source: Seq<char>, level: LevelFilter)
        requires
            self.accepts(source, level),
        ensures
            self.max_level().allows(level),
    {
        lemma_match_found(self.filters, source);
        lemma_most_permissive(self.filters, self.default_level);
    }

    /// A process gets its logger once: where it already has one, enabling
    /// fails, whatever the configuration and the log file, and it fails with
    /// `LoggerAlreadySet` unless the log file is what failed.
    pub proof fn lemma_enabled_only_once(self, file: Result<(), std::io::Error>)
        ensures
            self.enabling(true, file) is Err,
            self.enabling(true, file) == Err::<LevelFilter, LoggerError>(
                LoggerError::LoggerAlreadySet,
            ) <==> !(self.log_to_file && file is Err),
    {
    }
}

/// Logger structure.
#[derive(Debug)]
pub struct Logger {
    filters: Vec<(String, FilterType, LevelFilter)>,
    log_to_file: bool,
    log_filename: String,
    default_level: LevelFilter,
    time_format: String,
    use_color: bool,
}

impl View for Logger {
    type V = LoggerView;

    closed spec fn view(&self) -> LoggerView {
        LoggerView {
            filters: self.filters@.map_values(|entry: (String, FilterType, LevelFilter)| rule_of(entry)),
            log_to_file: self.log_to_file,
            log_filename: self.log_filename@,
            default_level: self.default_level,
            time_format: self.time_format@,
            use_color: self.use_color,
        }
    }
}

/// Builds the path of the default log file from the name of the user and the
/// text of the time.
pub fn log_name(user: &str, time: &str) -> (name: String)
    ensures
        name@ == default_log_name(user@, time@),
{
    let mut name = String::from_str("/home/");
    name.append(user);
    name.append("/.local/share/lunar-logging/log-");
    name.append(time);
    name.append(".log");
    assert(name@ =~= default_log_name(user@, time@));
    name
}

/// Generates the path of the default log file for the user `user`, named
/// after the local time of this moment in ISO 8601 form.
pub fn generate_log_name(user: &str) -> (name: String)
    ensures
        exists|time: Seq<char>| name@ == default_log_name(user@, time),
{
    let time = time_or_empty(get_time("%Y-%m-%dT%H:%M:%S"));
    log_name(user, time.as_str())
}

impl Logger {
    /// Creates a new `Logger` for the user `user`: no filters, the default
    /// level `Info`, no log file, the time stamp `%Y-%m-%d %H:%M:%S`, colour
    /// on. The path of its log file is the default one for that user.
    #[must_use]
    pub fn new(user: &str) -> (logger: Logger)
        ensures
            logger@.filters == Seq::<Rule>::empty(),
            !logger@.log_to_file,
            logger@.default_level == LevelFilter::Info,
            logger@.time_format == "%Y-%m-%d %H:%M:%S"@,
            logger@.use_color,
            exists|time: Seq<char>| logger@.log_filename == default_log_name(user@, time),
    {
        let logger = Logger {
            filters: Vec::new(),
            log_to_file: false,
            log_filename: generate_log_name(user),
            default_level: LevelFilter::Info,
            time_format: String::from_str("%Y-%m-%d %H:%M:%S"),
            use_color: true,
        };
        assert(logger@.filters =~= Seq::<Rule>::empty());
        logger
    }

    /// Adds a filter for a specified module/crate, with the specified level.
    /// The filter comes after those that the logger already has.
    pub fn add_filter(&mut self, module_name: &str, filter_type: FilterType, level: LevelFilter)
        ensures
            final(self)@ == (LoggerView {
                filters: old(self)@.filters.push(
                    Rule { name: module_name@, filter_type, level },
                ),
                ..old(self)@
            }),
    {
        self.filters.push((module_name.to_owned(), filter_type, level));
        assert(final(self)@.filters =~= old(self)@.filters.push(
            Rule { name: module_name@, filter_type, level },
        ));
    }

    /// Sets the filename of the log file. `is_dir` says whether `filename` is
    /// the path of a directory, which only the file system knows: such a name
    /// is refused and the logger stays as it was.
    ///
    /// Logging to a file must be enabled separately.
    pub fn set_log_file_name(&mut self, filename: &str, is_dir: bool) -> (res: Result<
        (),
        LoggerError,
    >)
        ensures
            is_dir ==> res == Err::<(), LoggerError>(LoggerError::InvalidFiname) && *final(self)
                == *old(self),
            !is_dir ==> res is Ok && final(self)@ == (LoggerView {
                log_filename: filename@,
                ..old(self)@
            }),
    {
        if is_dir {
            return Err(LoggerError::InvalidFiname);
        }
        self.log_filename = filename.to_owned();
        Ok(())
    }

    /// Enables logging to a file.
    pub fn set_log_to_file(&mut self)
        ensures
            final(self)@ == (LoggerView { log_to_file: true, ..old(self)@ }),
    {
        self.log_to_file = true;
    }

    /// Sets the time stamp format when logging.
    pub fn set_timestamp_format(&mut self, format: &str)
        ensures
            final(self)@ == (LoggerView { time_format: format@, ..old(self)@ }),
    {
        self.time_format = format.to_owned();
    }

    /// Sets the default logging level, that filters everything that does not
    /// have a dedicated filter.
    pub fn set_default_filter(&mut self, level: LevelFilter)
        ensures
            final(self)@ == (LoggerView { default_level: level, ..old(self)@ }),
    {
        self.default_level = level;
    }

    /// Sets whether the logger will use color when logging.
    pub fn use_color(&mut self, value: bool)
        ensures
            final(self)@ == (LoggerView { use_color: value, ..old(self)@ }),
    {
        self.use_color = value;
    }

    /// Whether the logger logs to a file as well as to the console.
    pub fn logs_to_file(&self) -> (on: bool)
        ensures
            on == self@.log_to_file,
    {
        self.log_to_file
    }

    /// The path of the log file.
    pub fn log_file_name(&self) -> (name: &str)
        ensures
            name@ == self@.log_filename,
    {
        self.log_filename.as_str()
    }

    /// The default logging level.
    pub fn default_filter(&self) -> (level: LevelFilter)
        ensures
            level == self@.default_level,
    {
        self.default_level
    }

    /// The time stamp format.
    pub fn timestamp_format(&self) -> (format: &str)
        ensures
            format@ == self@.time_format,
    {
        self.time_format.as_str()
    }

    /// Whether the logger uses color when logging.
    pub fn uses_color(&self) -> (on: bool)
        ensures
            on == self@.use_color,
    {
        self.use_color
    }

    /// The number of filters.
    pub fn filter_count(&self) -> (count: usize)
        ensures
            count == self@.filters.len(),
    {
        self.filters.len()
    }

    /// The filter at `index` in the order in which the filters were added:
    /// its name, its type and its level. `None` if there are not that many.
    pub fn filter_at(&self, index: usize) -> (entry: Option<(&str, FilterType, LevelFilter)>)
        ensures
            entry is Some <==> index < self@.filters.len(),
            entry matches Some(found) ==> self@.filters[index as int] == (Rule {
                name: found.0@,
                filter_type: found.1,
                level: found.2,
            }),
    {
        if index < self.filters.len() {
            let entry = &self.filters[index];
            Some((entry.0.as_str(), entry.1, entry.2))
        } else {
            None
        }
    }

    /// Finds the level of the first filter that applies to `target`, trying
    /// the filters in the order in which they were added.
    pub fn matching_level(&self, target: &str) -> (level: Option<LevelFilter>)
        ensures
            level == matched_level(self@.filters, target@),
    {
        let n = self.filters.len();
        let mut i: usize = 0;
        assert(self@.filters.skip(0) =~= self@.filters);
        while i < n
            invariant
                n == self.filters@.len(),
                i <= n,
                matched_level(self@.filters, target@) == matched_level(
                    self@.filters.skip(i as int),
                    target@,
                ),
            decreases n - i,
        {
            let entry = &self.filters[i];
            proof {
                let rest = self@.filters.skip(i as int);
                assert(rest[0] == rule_of(*entry));
                assert(rest.drop_first() =~= self@.filters.skip(i + 1));
            }
            if filter(entry.0.as_str(), entry.1, target) {
                return Some(entry.2);
            }
            i += 1;
        }
        None
    }

    /// Decides whether a record of severity `level` from the source `target`
    /// passes. The first filter that applies to the source decides, and no
    /// later one is asked; where none applies the default level decides.
    pub fn accepts(&self, target: &str, level: LevelFilter) -> (accepted: bool)
        ensures
            accepted == self@.accepts(target@, level),
    {
        match self.matching_level(target) {
            Some(threshold) => threshold.accepts(level),
            None => self.default_level.accepts(level),
        }
    }

    /// Renders a record into its line, with `time` as the time stamp.
    pub fn format_record(&self, time: &str, level: LevelFilter, target: &str, msg: &str) -> (line:
        String)
        ensures
            line@ == self@.line(time@, level, target@, msg@),
    {
        let label = format_level(level);
        let mut line = String::new();
        if self.use_color {
            line.append("\x1b[90m[\x1b[0m");
            line.append(time);
            line.append(" ");
            line.append(get_color(level));
            line.append(label);
            line.append(" \x1b[0m");
            line.append(target);
            line.append("\x1b[90m]\x1b[0m ");
        } else {
            line.append("[");
            line.append(time);
            line.append(" ");
            line.append(label);
            line.append(" ");
            line.append(target);
            line.append("] ");
        }
        line.append(msg);
        line.append("\n");
        assert(line@ =~= self@.line(time@, level, target@, msg@));
        line
    }

    /// Takes a record: returns the line to write where the record passes, and
    /// `None` where the filters reject it. The time stamp is the local time
    /// of this call in the time stamp format of the logger; where the clock
    /// cannot render that format the time stamp is empty.
    pub fn log(&self, target: &str, level: LevelFilter, msg: &str) -> (line: Option<String>)
        ensures
            line is Some <==> self@.accepts(target@, level),
            line matches Some(text) ==> exists|time: Seq<char>|
                text@ == self@.line(time, level, target@, msg@),
    {
        if !self.accepts(target, level) {
            return None;
        }
        let time = time_or_empty(get_time(self.time_format.as_str()));
        Some(self.format_record(time.as_str(), level, target, msg))
    }

    /// Computes the most permissive of the default level and the levels of
    /// the filters.
    pub fn max_level(&self) -> (most: LevelFilter)
        ensures
            most == self@.max_level(),
    {
        let n = self.filters.len();
        let mut most = self.default_level;
        let mut i: usize = 0;
        assert(self@.filters.take(0) =~= Seq::<Rule>::empty());
        while i < n
            invariant
                n == self.filters@.len(),
                i <= n,
                most == most_permissive(self@.filters.take(i as int), self@.default_level),
            decreases n - i,
        {
            proof {
                let next = self@.filters.take(i + 1);
                assert(next.drop_last() =~= self@.filters.take(i as int));
                assert(next.last() == rule_of(self.filters@[i as int]));
            }
            most = most.max(self.filters[i].2);
            i += 1;
        }
        assert(self@.filters.take(n as int) =~= self@.filters);
        most
    }

    /// Consumes the logger and sets it as the logger of the process that
    /// `registry` stands for.
    ///
    /// `file` is the outcome of creating and opening the log file, which the
    /// caller attempts where the logger logs to a file; without a log file it
    /// is not looked at. On success the result is the most permissive
    /// threshold of the logger: the caller may drop every record less severe
    /// than it before the record reaches the logger.
    ///
    /// # Errors
    ///
    /// Returns `FileError` with the error in `file` if the logger logs to a
    /// file and the file could not be had, and otherwise `LoggerAlreadySet`
    /// if the registry already holds a logger. The registry is then as it
    /// was.
    pub fn enable_logger(self, registry: &mut Registry, file: Result<(), std::io::Error>) -> (res:
        Result<LevelFilter, LoggerError>)
        ensures
            res == self@.enabling(old(registry).logger() is Some, file),
            res is Ok ==> final(registry).logger() == Some(self),
            res is Err ==> *final(registry) == *old(registry),
            old(registry).logger() is Some ==> res is Err,
            res is Ok && self@.log_to_file ==> file is Ok,
    {
        if self.log_to_file {
            if let Err(e) = file {
                return Err(LoggerError::FileError(e));
            }
        }
        if registry.slot.is_some() {
            return Err(LoggerError::LoggerAlreadySet);
        }
        let most = self.max_level();
        registry.slot = Some(self);
        Ok(most)
    }
}

/// The place of the one logger of a process. It is empty at first and is
/// filled once, by [`Logger::enable_logger`]; nothing empties or refills it.
#[derive(Debug)]
pub struct Registry {
    slot: Option<Logger>,
}

impl Registry {
    /// The logger that the registry holds, if it holds one.
    pub closed spec fn logger(&self) -> Option<Logger> {
        self.slot
    }

    /// Creates an empty registry.
    #[must_use]
    pub fn new() -> (registry: Registry)
        ensures
            registry.logger() is None,
    {
        Registry { slot: None }
    }

    /// Returns the logger that was enabled, if one was.
    pub fn get(&self) -> (logger: Option<&Logger>)
        ensures
            logger is Some <==> self.logger() is Some,
            logger matches Some(held) ==> *held == self.logger()->0,
    {
        self.slot.as_ref()
    }
}

} // verus!
