//! The logger's configuration and the text it writes. Installing the logger
//! and writing to a file are the caller's business: here is what is written,
//! when a file is due for rotation, and under which names the old files go.

pub mod mask;
pub mod rotate;

use crate::log::mask::is_masked;
use crate::log::mask::marker_bytes;
use crate::log::mask::mask_line;
use crate::text::ends_with;
use crate::text::has_prefix;
use crate::text::has_suffix;
use crate::text::same_text;
use crate::text::starts_with;
use vstd::prelude::*;
use vstd::string::StrSliceExecFns;
use vstd::string::StringExecFns;
use vstd::utf8::encode_utf8;

verus! {

/// How much is logged: everything up to and including the named severity.
#[derive(Clone, Copy, Debug, PartialEq, Eq)]
pub enum LogLevel {
    Off,
    Error,
    Warn,
    Info,
    Debug,
    Trace,
}

/// The level that a name in lower case stands for. A name that is none of
/// the six stands for `Debug`.
pub open spec fn level_named(name: Seq<char>) -> LogLevel {
    if name == "debug"@ {
        LogLevel::Debug
    } else if name == "trace"@ {
        LogLevel::Trace
    } else if name == "info"@ {
        LogLevel::Info
    } else if name == "warn"@ {
        LogLevel::Warn
    } else if name == "error"@ {
        LogLevel::Error
    } else if name == "off"@ {
        LogLevel::Off
    } else {
        LogLevel::Debug
    }
}

/// The level that `name`, written in lower case, stands for.
pub fn level_of_name(name: &str) -> (level: LogLevel)
    ensures
        level == level_named(name@),
{
    if same_text(name, "debug") {
        LogLevel::Debug
    } else if same_text(name, "trace") {
        LogLevel::Trace
    } else if same_text(name, "info") {
        LogLevel::Info
    } else if same_text(name, "warn") {
        LogLevel::Warn
    } else if same_text(name, "error") {
        LogLevel::Error
    } else if same_text(name, "off") {
        LogLevel::Off
    } else {
        LogLevel::Debug
    }
}

/// What `str::to_lowercase` makes of a text.
pub uninterp spec fn lowercase_of(text: Seq<char>) -> Seq<char>;

/// Calls `str::to_lowercase`.
///
/// Trusted: the lower-case form of a text depends on the text alone, so it
/// is the value that [`lowercase_of`] names.
#[verifier::external_body]
fn to_lowercase(text: &str) -> (lower: String)
    ensures
        lower@ == lowercase_of(text@),
{
    text.to_lowercase()
}

/// The level that a name stands for, however it is capitalised.
pub fn get_level(level: String) -> (filter: LogLevel)
    ensures
        filter == level_named(lowercase_of(level@)),
{
    let lower = to_lowercase(level.as_str());
    level_of_name(lower.as_str())
}

/// The size from which a log file is rotated unless the configuration says
/// otherwise: 100 MiB.
pub const DEFAULT_FILE_SIZE: u64 = 104857600;

/// The number of log files kept unless the configuration says otherwise.
pub const DEFAULT_FILE_COUNT: usize = 10;

/// What a `Log2` holds.
pub ghost struct Log2View {
    /// The log file; empty where nothing is written to a file.
    pub path: Seq<char>,
    /// Lines also go to standard output.
    pub tee: bool,
    /// Lines name the source file they come from.
    pub module: bool,
    /// The size from which the log file is rotated.
    pub file_size: u64,
    /// The number of log files kept, the current one included.
    pub count: usize,
    /// The name of the level to log at; empty for the default.
    pub level: Seq<char>,
    /// Markers of secrets: what follows the first marker found in a line
    /// is blanked.
    pub mask: Seq<Seq<char>>,
}

impl Log2View {
    /// A logger that keeps a single file, or none, never rotates: its size
    /// limit is out of reach.
    pub open spec fn wf(self) -> bool {
        self.count <= 1 ==> self.file_size == u64::MAX
    }

    /// The level the logger starts at: everything, unless a level is named.
    pub open spec fn max_level(self) -> LogLevel {
        if self.level.len() == 0 {
            LogLevel::Trace
        } else {
            level_named(lowercase_of(self.level))
        }
    }
}

/// The configuration of a logger, put together step by step.
pub struct Log2 {
    path: String,
    tee: bool,
    module: bool,
    file_size: u64,
    count: usize,
    level: String,
    mask: Vec<&'static str>,
}

impl View for Log2 {
    type V = Log2View;

    closed spec fn view(&self) -> Log2View {
        Log2View {
            path: self.path@,
            tee: self.tee,
            module: self.module,
            file_size: self.file_size,
            count: self.count,
            level: self.level@,
            mask: Seq::new(self.mask@.len(), |i: int| self.mask@[i]@),
        }
    }
}

/// A logger that writes to the file at `path`, and is otherwise as
/// [`Log2::new`] makes it. Creating the directory is left to the caller.
pub fn open(path: &str) -> (logger: Log2)
    ensures
        logger@ == (Log2View { path: path@, ..Log2::new_view() }),
{
    let mut logger = Log2::new();
    logger.path = path.to_owned();
    logger
}

impl Log2 {
    /// What [`Log2::new`] returns.
    pub open spec fn new_view() -> Log2View {
        Log2View {
            path: Seq::empty(),
            tee: false,
            module: true,
            file_size: DEFAULT_FILE_SIZE,
            count: DEFAULT_FILE_COUNT,
            level: Seq::empty(),
            mask: Seq::empty(),
        }
    }

    /// A logger that writes nowhere yet, shows the source file, and keeps
    /// ten files of 100 MiB once it is given a path.
    pub fn new() -> (logger: Self)
        ensures
            logger@ == Self::new_view(),
            logger@.wf(),
    {
        let logger = Log2 {
            path: String::new(),
            tee: false,
            module: true,
            file_size: DEFAULT_FILE_SIZE,
            count: DEFAULT_FILE_COUNT,
            level: String::new(),
            mask: Vec::new(),
        };
        assert(logger@.mask =~= Seq::<Seq<char>>::empty());
        logger
    }

    /// Whether lines name the source file they come from.
    pub fn module(self, show: bool) -> (logger: Log2)
        ensures
            logger@ == (Log2View { module: show, ..self@ }),
    {
        let mut logger = self;
        logger.module = show;
        logger
    }

    /// Whether lines also go to standard output.
    pub fn tee(self, stdout: bool) -> (logger: Log2)
        ensures
            logger@ == (Log2View { tee: stdout, ..self@ }),
    {
        let mut logger = self;
        logger.tee = stdout;
        logger
    }

    /// Sets the size from which the log file is rotated. A logger that keeps
    /// one file or none never rotates, whatever size is asked for.
    pub fn size(self, file_size: u64) -> (logger: Log2)
        ensures
            logger@ == (Log2View {
                file_size: if self@.count <= 1 {
                    u64::MAX
                } else {
                    file_size
                },
                ..self@
            }),
            logger@.wf(),
    {
        let mut logger = self;
        if logger.count <= 1 {
            logger.file_size = u64::MAX;
        } else {
            logger.file_size = file_size;
        }
        logger
    }

    /// Sets the number of log files kept. With one file or none the logger
    /// stops rotating.
    pub fn rotate(self, count: usize) -> (logger: Log2)
        ensures
            logger@ == (Log2View {
                count,
                file_size: if count <= 1 {
                    u64::MAX
                } else {
                    self@.file_size
                },
                ..self@
            }),
            logger@.wf(),
    {
        let mut logger = self;
        logger.count = count;
        if logger.count <= 1 {
            logger.file_size = u64::MAX;
        }
        logger
    }

    /// Names the level to log at.
    pub fn level(self, name: &str) -> (logger: Log2)
        ensures
            logger@ == (Log2View { level: name@, ..self@ }),
    {
        let mut logger = self;
        logger.level = name.to_owned();
        logger
    }

    /// Sets the markers of secrets.
    pub fn mask(self, mask: Vec<&'static str>) -> (logger: Log2)
        ensures
            logger@ == (Log2View { mask: Seq::new(mask@.len(), |i: int| mask@[i]@), ..self@ }),
    {
        let mut logger = self;
        logger.mask = mask;
        assert(logger@.mask =~= Seq::new(mask@.len(), |i: int| mask@[i]@));
        logger
    }

    /// The log file; empty where nothing is written to a file.
    pub fn path(&self) -> (path: &str)
        ensures
            path@ == self@.path,
    {
        self.path.as_str()
    }

    /// Whether lines also go to standard output.
    pub fn is_tee(&self) -> (tee: bool)
        ensures
            tee == self@.tee,
    {
        self.tee
    }

    /// Whether lines name the source file they come from.
    pub fn shows_module(&self) -> (module: bool)
        ensures
            module == self@.module,
    {
        self.module
    }

    /// The size from which the log file is rotated.
    pub fn file_size(&self) -> (file_size: u64)
        ensures
            file_size == self@.file_size,
    {
        self.file_size
    }

    /// The number of log files kept.
    pub fn count(&self) -> (count: usize)
        ensures
            count == self@.count,
    {
        self.count
    }

    /// The name of the level to log at; empty for the default.
    pub fn level_name(&self) -> (name: &str)
        ensures
            name@ == self@.level,
    {
        self.level.as_str()
    }

    /// The markers of secrets.
    pub fn masks(&self) -> (mask: &Vec<&'static str>)
        ensures
            self@.mask == Seq::new(mask@.len(), |i: int| mask@[i]@),
    {
        &self.mask
    }

    /// The level that the logger is to be started at: `Trace`, so that
    /// everything is logged, unless the configuration names a level.
    pub fn max_level(&self) -> (level: LogLevel)
        ensures
            level == self@.max_level(),
    {
        if self.level.as_str().unicode_len() == 0 {
            LogLevel::Trace
        } else {
            get_level(self.level.clone())
        }
    }

    /// The bytes of `line` with the secret blanked that follows the first of
    /// the logger's markers found in it.
    pub fn masked(&self, line: &str) -> (bytes: Vec<u8>)
        ensures
            is_masked(encode_utf8(line@), marker_bytes(self@.mask), bytes@),
    {
        assert(self@.mask =~= Seq::new(self.mask@.len(), |k: int| self.mask@[k]@));
        mask_line(line.as_bytes(), &self.mask)
    }

    /// Whether a log file that has grown to `current_size` bytes is due for
    /// rotation.
    pub fn needs_rotation(&self, current_size: u64) -> (due: bool)
        ensures
            due == (current_size >= self@.file_size),
    {
        current_size >= self.file_size
    }
}

/// A record from this file is not logged: an absolute path, which is how
/// the files of other crates show up.
pub open spec fn is_foreign(file: Seq<char>) -> bool {
    has_prefix(file, "/"@)
}

/// How a source file is named in a line: without `src/` in front and `.rs`
/// behind where it has both, and with a colon and a blank after it.
pub open spec fn module_label_of(file: Seq<char>) -> Seq<char> {
    if has_prefix(file, "src/"@) && has_suffix(file, ".rs"@) {
        file.subrange(4, file.len() - 3) + ": "@
    } else {
        file + ": "@
    }
}

/// A line of the log.
pub open spec fn line_of(
    time: Seq<char>,
    level: Seq<char>,
    module: Seq<char>,
    message: Seq<char>,
) -> Seq<char> {
    "["@ + time + "] ["@ + level + "] "@ + module + message + "\n"@
}

/// The line that a logger configured as `logger` writes for a record, if it
/// writes one: none for a foreign file, and none where the logger has
/// neither a file nor standard output to write to.
pub open spec fn record_line(
    logger: Log2View,
    file: Seq<char>,
    time: Seq<char>,
    level: Seq<char>,
    message: Seq<char>,
) -> Option<Seq<char>> {
    if is_foreign(file) || !(logger.tee || logger.path.len() > 0) {
        None
    } else {
        Some(
            line_of(
                time,
                level,
                if logger.module {
                    module_label_of(file)
                } else {
                    Seq::empty()
                },
                message,
            ),
        )
    }
}

/// Names a source file for a line of the log.
pub fn module_label(file: &str) -> (label: String)
    ensures
        label@ == module_label_of(file@),
{
    proof {
        reveal_strlit("src/");
        reveal_strlit(".rs");
    }
    let mut label = if starts_with(file, "src/") && ends_with(file, ".rs") {
        let n = file.unicode_len();
        assert(n >= 7) by {
            let head = file@.subrange(0, 4);
            let tail = file@.subrange(n - 3, n as int);
            assert(head == "src/"@ && tail == ".rs"@);
            assert(head[1] == 'r' && head[2] == 'c' && head[3] == '/');
            assert(tail[0] == '.');
            assert(file@[n - 3] == tail[0]);
            assert(file@[1] == head[1] && file@[2] == head[2] && file@[3] == head[3]);
        }
        String::from_str(file.substring_char(4, n - 3))
    } else {
        String::from_str(file)
    };
    label.append(": ");
    label
}

/// Puts a line of the log together.
pub fn format_line(time: &str, level: &str, module: &str, message: &str) -> (line: String)
    ensures
        line@ == line_of(time@, level@, module@, message@),
{
    let mut line = String::from_str("[");
    line.append(time);
    line.append("] [");
    line.append(level);
    line.append("] ");
    line.append(module);
    line.append(message);
    line.append("\n");
    line
}

impl Log2 {
    /// The line to write for a record that comes from `file`, was made at
    /// `time` with severity `level`, and says `message`; `None` where the
    /// record is not logged.
    pub fn log_line(&self, file: &str, time: &str, level: &str, message: &str) -> (line: Option<
        String,
    >)
        ensures
            match line {
                Some(text) => record_line(self@, file@, time@, level@, message@) == Some(text@),
                None => record_line(self@, file@, time@, level@, message@) is None,
            },
    {
        if starts_with(file, "/") {
            return None;
        }
        if !(self.tee || self.path.as_str().unicode_len() > 0) {
            return None;
        }
        let module = if self.module {
            module_label(file)
        } else {
            String::new()
        };
        Some(format_line(time, level, module.as_str(), message))
    }
}

} // verus!
