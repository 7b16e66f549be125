//! A builder that collects the configuration of a logger step by step.

use vstd::prelude::*;
use crate::filter::FilterType;
use crate::level::LevelFilter;
use crate::logger::{default_log_name, Logger, LoggerError, LoggerView};
use crate::rules::Rule;

verus! {

/// The configuration that a builder has collected, as the contracts see it.
pub struct BuilderView {
    /// The crate filters, in the order in which they were added.
    pub crate_filters: Seq<(Seq<char>, LevelFilter)>,
    /// The module filters, in the order in which they were added.
    pub mod_filters: Seq<(Seq<char>, LevelFilter)>,
    /// The threshold for sources to which no filter applies.
    pub default_level: LevelFilter,
    /// Whether the logger is to log to a file.
    pub log_to_file: bool,
    /// The path of the log file, if one was given.
    pub log_filename: Option<Seq<char>>,
    /// The pattern of the time stamp; empty if none was given.
    pub time_format: Seq<char>,
    /// Whether lines are to carry colour escape sequences.
    pub use_color: bool,
}

/// What the contracts see of a name and its level.
pub open spec fn named_level(entry: (String, LevelFilter)) -> (Seq<char>, LevelFilter) {
    (entry.0@, entry.1)
}

impl BuilderView {
    /// The filters of the logger that is built: the crate filters first, then
    /// the module filters, each group in the order in which it was added.
    pub open spec fn filters(self) -> Seq<Rule> {
        self.crate_filters.map_values(
            |entry: (Seq<char>, LevelFilter)|
                Rule { name: entry.0, filter_type: FilterType::Crate, level: entry.1 },
        ) + self.mod_filters.map_values(
            |entry: (Seq<char>, LevelFilter)|
                Rule { name: entry.0, filter_type: FilterType::Module, level: entry.1 },
        )
    }

    /// The pattern of the time stamp of the logger that is built: the one
    /// given, or `%Y-%m-%d %H:%M:%S` where none or an empty one was given.
    pub open spec fn timestamp_format(self) -> Seq<char> {
        if self.time_format.len() == 0 {
            "%Y-%m-%d %H:%M:%S"@
        } else {
            self.time_format
        }
    }

    /// Whether the file name that was given is put to use: only a logger that
    /// logs to a file takes it.
    pub open spec fn takes_filename(self) -> bool {
        self.log_to_file && self.log_filename is Some
    }
}

/// Builder struct for easier [`Logger`] creation.
#[derive(Debug)]
pub struct Builder {
    crate_filters: Vec<(String, LevelFilter)>,
    mod_filters: Vec<(String, LevelFilter)>,
    default_level: LevelFilter,
    log_to_file: bool,
    log_filename: Option<String>,
    time_format: String,
    use_color: bool,
}

impl View for Builder {
    type V = BuilderView;

    closed spec fn view(&self) -> BuilderView {
        BuilderView {
            crate_filters: self.crate_filters@.map_values(
                |entry: (String, LevelFilter)| named_level(entry),
            ),
            mod_filters: self.mod_filters@.map_values(
                |entry: (String, LevelFilter)| named_level(entry),
            ),
            default_level: self.default_level,
            log_to_file: self.log_to_file,
            log_filename: match self.log_filename {
                Some(name) => Some(name@),
                None => None,
            },
            time_format: self.time_format@,
            use_color: self.use_color,
        }
    }
}

impl Default for Builder {
    fn default() -> (builder: Builder)
        ensures
            builder@ == Builder::initial(),
    {
        Builder::new()
    }
}

impl Builder {
    /// The configuration of a new builder: no filters, the default level
    /// `Info`, no log file, no time stamp pattern of its own, colour on.
    pub open spec fn initial() -> BuilderView {
        BuilderView {
            crate_filters: Seq::empty(),
            mod_filters: Seq::empty(),
            default_level: LevelFilter::Info,
            log_to_file: false,
            log_filename: None,
            time_format: Seq::empty(),
            use_color: true,
        }
    }

    /// Creates a new builder.
    #[must_use]
    pub fn new() -> (builder: Builder)
        ensures
            builder@ == Builder::initial(),
    {
        let builder = Builder {
            crate_filters: Vec::new(),
            mod_filters: Vec::new(),
            default_level: LevelFilter::Info,
            log_to_file: false,
            log_filename: None,
            time_format: String::new(),
            use_color: true,
        };
        assert(builder@.crate_filters =~= Seq::empty());
        assert(builder@.mod_filters =~= Seq::empty());
        builder
    }

    /// Adds a filter for a crate.
    #[must_use]
    pub fn add_crate_filter(self, crate_name: &str, level: LevelFilter) -> (builder: Builder)
        ensures
            builder@ == (BuilderView {
                crate_filters: self@.crate_filters.push((crate_name@, level)),
                ..self@
            }),
    {
        let mut builder = self;
        builder.crate_filters.push((crate_name.to_owned(), level));
        assert(builder@.crate_filters =~= self@.crate_filters.push((crate_name@, level)));
        builder
    }

    /// Adds a filter for a module.
    #[must_use]
    pub fn add_mod_filter(self, crate_name: &str, level: LevelFilter) -> (builder: Builder)
        ensures
            builder@ == (BuilderView {
                mod_filters: self@.mod_filters.push((crate_name@, level)),
                ..self@
            }),
    {
        let mut builder = self;
        builder.mod_filters.push((crate_name.to_owned(), level));
        assert(builder@.mod_filters =~= self@.mod_filters.push((crate_name@, level)));
        builder
    }

    /// Sets the default logging level.
    #[must_use]
    pub fn default_filter(self, level: LevelFilter) -> (builder: Builder)
        ensures
            builder@ == (BuilderView { default_level: level, ..self@ }),
    {
        let mut builder = self;
        builder.default_level = level;
        builder
    }

    /// Enables logging to file.
    #[must_use]
    pub fn log_to_file(self) -> (builder: Builder)
        ensures
            builder@ == (BuilderView { log_to_file: true, ..self@ }),
    {
        let mut builder = self;
        builder.log_to_file = true;
        builder
    }

    /// Sets the filename of the log file.
    #[must_use]
    pub fn log_filname(self, filename: &str) -> (builder: Builder)
        ensures
            builder@ == (BuilderView { log_filename: Some(filename@), ..self@ }),
    {
        let mut builder = self;
        builder.log_filename = Some(filename.to_owned());
        builder
    }

    /// Sets the time stamp format.
    #[must_use]
    pub fn time_format(self, format: &str) -> (builder: Builder)
        ensures
            builder@ == (BuilderView { time_format: format@, ..self@ }),
    {
        let mut builder = self;
        builder.time_format = format.to_owned();
        builder
    }

    /// Sets whether the logger will use color.
    ///
    /// Default is true.
    #[must_use]
    pub fn use_color(self, value: bool) -> (builder: Builder)
        ensures
            builder@ == (BuilderView { use_color: value, ..self@ }),
    {
        let mut builder = self;
        builder.use_color = value;
        builder
    }

    /// The file name that was given, if the logger that is built will take
    /// it. The caller finds out whether it is the path of a directory before
    /// it calls [`Builder::create`].
    pub fn filename_in_use(&self) -> (filename: Option<&str>)
        ensures
            filename is Some <==> self@.takes_filename(),
            filename matches Some(name) ==> Some(name@) == self@.log_filename,
    {
        if self.log_to_file {
            match &self.log_filename {
                Some(name) => Some(name.as_str()),
                None => None,
            }
        } else {
            None
        }
    }

    /// Creates the [`Logger`] from the builder, for the user `user`.
    ///
    /// The logger has the crate filters of the builder, then its module
    /// filters. Where the builder enables logging to a file and was given a
    /// file name, the logger takes that name; `filename_is_dir` says whether
    /// that name is the path of a directory. Otherwise the logger keeps the
    /// default path for `user`.
    ///
    /// # Errors
    ///
    /// Returns `InvalidFiname` if the logger would take a file name that is
    /// the path of a directory.
    pub fn create(self, user: &str, filename_is_dir: bool) -> (res: Result<Logger, LoggerError>)
        ensures
            self@.takes_filename() && filename_is_dir ==> res matches Err(
                LoggerError::InvalidFiname,
            ),
            !(self@.takes_filename() && filename_is_dir) ==> res is Ok,
            res matches Ok(logger) ==> logger@.filters == self@.filters(),
            res matches Ok(logger) ==> logger@.default_level == self@.default_level,
            res matches Ok(logger) ==> logger@.use_color == self@.use_color,
            res matches Ok(logger) ==> logger@.time_format == self@.timestamp_format(),
            res matches Ok(logger) ==> logger@.log_to_file == self@.log_to_file,
            res matches Ok(logger) ==> self@.takes_filename() ==> Some(logger@.log_filename)
                == self@.log_filename,
            res matches Ok(logger) ==> !self@.takes_filename() ==> exists|time: Seq<char>|
                logger@.log_filename == default_log_name(user@, time),
    {
        let mut logger = Logger::new(user);
        let ghost fresh = logger@;
        logger.use_color(self.use_color);
        logger.set_default_filter(self.default_level);

        let crates = self.crate_filters.len();
        let mut i: usize = 0;
        assert(self@.filters().take(0) =~= fresh.filters);
        while i < crates
            invariant
                crates == self.crate_filters@.len(),
                i <= crates,
                logger@ == (LoggerView {
                    filters: self@.filters().take(i as int),
                    use_color: self@.use_color,
                    default_level: self@.default_level,
                    ..fresh
                }),
            decreases crates - i,
        {
            let entry = &self.crate_filters[i];
            logger.add_filter(entry.0.as_str(), FilterType::Crate, entry.1);
            assert(self@.filters().take(i as int).push(self@.filters()[i as int])
                =~= self@.filters().take(i + 1));
            i += 1;
        }

        let mods = self.mod_filters.len();
        let mut j: usize = 0;
        while j < mods
            invariant
                crates == self.crate_filters@.len(),
                mods == self.mod_filters@.len(),
                j <= mods,
                logger@ == (LoggerView {
                    filters: self@.filters().take(crates + j),
                    use_color: self@.use_color,
                    default_level: self@.default_level,
                    ..fresh
                }),
            decreases mods - j,
        {
            let entry = &self.mod_filters[j];
            logger.add_filter(entry.0.as_str(), FilterType::Module, entry.1);
            assert(self@.filters().take(crates + j).push(self@.filters()[crates + j])
                =~= self@.filters().take(crates + j + 1));
            j += 1;
        }
        assert(self@.filters().take(crates + mods) =~= self@.filters());

        if !self.time_format.as_str().is_empty() {
            logger.set_timestamp_format(self.time_format.as_str());
        }
        if self.log_to_file {
            logger.set_log_to_file();
            if let Some(name) = &self.log_filename {
                match logger.set_log_file_name(name.as_str(), filename_is_dir) {
                    Ok(()) => {},
                    Err(e) => {
                        return Err(e);
                    },
                }
            }
        }
        Ok(logger)
    }
}

} // verus!
