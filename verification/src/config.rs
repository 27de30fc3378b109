//! The configuration that one pipeline invocation runs under.

use crate::error::Error;
use crate::mode::{resolved_mode, Mode};
use vstd::prelude::*;

verus! {

/// Seconds the server keeps the model loaded when the operator names none.
pub const DEFAULT_KEEP_ALIVE: u16 = 0;

/// Network attempts per logical request when the operator names none.
pub const DEFAULT_MAX_ATTEMPTS: u8 = 3;

/// Seconds allowed for one attempt when the operator names none.
pub const DEFAULT_TIMEOUT: u64 = 300;

/// The options as the operator gave them on the command line.
#[derive(Debug)]
pub struct Args {
    /// Directory whose source files are analysed.
    pub dir: Option<String>,
    /// Last line of the range taken from each file.
    pub end_line: Option<u32>,
    /// A single file: the code to analyse or the acceptance criteria.
    pub file: Option<String>,
    /// Keep alive in seconds.
    pub keep_alive: Option<u16>,
    /// Max attempts.
    pub max_attempts: Option<u8>,
    /// Mode identifier.
    pub mode: Option<String>,
    /// Model identifier.
    pub model: Option<String>,
    /// Question.
    pub question: Option<String>,
    /// Context size above which a request is skipped.
    pub skip_larger: Option<u32>,
    /// First line of the range taken from each file.
    pub start_line: Option<u32>,
    /// Seconds allowed for one attempt.
    pub timeout: Option<u64>,
}

/// The mathematical value of [`Args`].
pub struct ArgsView {
    pub dir: Option<Seq<char>>,
    pub end_line: Option<u32>,
    pub file: Option<Seq<char>>,
    pub keep_alive: Option<u16>,
    pub max_attempts: Option<u8>,
    pub mode: Option<Seq<char>>,
    pub model: Option<Seq<char>>,
    pub question: Option<Seq<char>>,
    pub skip_larger: Option<u32>,
    pub start_line: Option<u32>,
    pub timeout: Option<u64>,
}

/// The characters of an optional owned text.
pub open spec fn text_of(text: Option<String>) -> Option<Seq<char>> {
    match text {
        Some(s) => Some(s@),
        None => None,
    }
}

impl View for Args {
    type V = ArgsView;

    open spec fn view(&self) -> ArgsView {
        ArgsView {
            dir: text_of(self.dir),
            end_line: self.end_line,
            file: text_of(self.file),
            keep_alive: self.keep_alive,
            max_attempts: self.max_attempts,
            mode: text_of(self.mode),
            model: text_of(self.model),
            question: text_of(self.question),
            skip_larger: self.skip_larger,
            start_line: self.start_line,
            timeout: self.timeout,
        }
    }
}

/// The resolved settings of one run. A configuration is never changed after
/// it is built and is shared by all requests of a batch.
#[derive(Debug)]
pub struct Config {
    pub dir: Option<String>,
    pub end_line: Option<u32>,
    pub file: Option<String>,
    pub keep_alive: u16,
    pub max_attempts: u8,
    pub mode: Mode,
    pub model: Option<String>,
    pub ollama_host: String,
    pub question: Option<String>,
    pub skip_larger: Option<u32>,
    pub start_line: Option<u32>,
    pub timeout: u64,
}

/// The mathematical value of a [`Config`].
pub struct ConfigView {
    pub dir: Option<Seq<char>>,
    pub end_line: Option<u32>,
    pub file: Option<Seq<char>>,
    pub keep_alive: u16,
    pub max_attempts: u8,
    pub mode: Mode,
    pub model: Option<Seq<char>>,
    pub ollama_host: Seq<char>,
    pub question: Option<Seq<char>>,
    pub skip_larger: Option<u32>,
    pub start_line: Option<u32>,
    pub timeout: u64,
}

impl View for Config {
    type V = ConfigView;

    open spec fn view(&self) -> ConfigView {
        ConfigView {
            dir: text_of(self.dir),
            end_line: self.end_line,
            file: text_of(self.file),
            keep_alive: self.keep_alive,
            max_attempts: self.max_attempts,
            mode: self.mode,
            model: text_of(self.model),
            ollama_host: self.ollama_host@,
            question: text_of(self.question),
            skip_larger: self.skip_larger,
            start_line: self.start_line,
            timeout: self.timeout,
        }
    }
}

impl Clone for Config {
    fn clone(&self) -> (r: Config)
        ensures
            r@ == self@,
    {
        Config {
            dir: copy_of(&self.dir),
            end_line: self.end_line,
            file: copy_of(&self.file),
            keep_alive: self.keep_alive,
            max_attempts: self.max_attempts,
            mode: self.mode,
            model: copy_of(&self.model),
            ollama_host: self.ollama_host.clone(),
            question: copy_of(&self.question),
            skip_larger: self.skip_larger,
            start_line: self.start_line,
            timeout: self.timeout,
        }
    }
}

/// A copy of an optional text.
fn copy_of(text: &Option<String>) -> (r: Option<String>)
    ensures
        text_of(r) == text_of(*text),
{
    match text {
        Some(s) => Some(s.clone()),
        None => None,
    }
}

impl Config {
    /// Builds a configuration from its parts.
    pub fn new(
        dir: Option<String>,
        end_line: Option<u32>,
        file: Option<String>,
        keep_alive: u16,
        max_attempts: u8,
        mode: Mode,
        model: Option<String>,
        ollama_host: String,
        question: Option<String>,
        skip_larger: Option<u32>,
        start_line: Option<u32>,
        timeout: u64,
    ) -> (r: Config)
        ensures
            r@ == (ConfigView {
                dir: text_of(dir),
                end_line,
                file: text_of(file),
                keep_alive,
                max_attempts,
                mode,
                model: text_of(model),
                ollama_host: ollama_host@,
                question: text_of(question),
                skip_larger,
                start_line,
                timeout,
            }),
    {
        Config {
            dir,
            end_line,
            file,
            keep_alive,
            max_attempts,
            mode,
            model,
            ollama_host,
            question,
            skip_larger,
            start_line,
            timeout,
        }
    }
}

/// The value of an optional setting, or its default.
pub open spec fn or_default<T>(value: Option<T>, default: T) -> T {
    match value {
        Some(v) => v,
        None => default,
    }
}

/// The configuration that the operator's options and a server address
/// resolve to.
pub open spec fn loaded(args: ArgsView, ollama_host: Seq<char>) -> ConfigView {
    ConfigView {
        dir: args.dir,
        end_line: args.end_line,
        file: args.file,
        keep_alive: or_default(args.keep_alive, DEFAULT_KEEP_ALIVE),
        max_attempts: or_default(args.max_attempts, DEFAULT_MAX_ATTEMPTS),
        mode: resolved_mode(args.mode),
        model: args.model,
        ollama_host,
        question: args.question,
        skip_larger: args.skip_larger,
        start_line: args.start_line,
        timeout: or_default(args.timeout, DEFAULT_TIMEOUT),
    }
}

/// Resolves the operator's options into a configuration.
///
/// `ollama_host` is the configured address of the inference server; the
/// embedding program reads it from its environment. Loading fails exactly
/// when the address is absent.
pub fn load(args: Args, ollama_host: Option<String>) -> (r: Result<Config, Error>)
    ensures
        match ollama_host {
            Some(host) => r is Ok && r->Ok_0@ == loaded(args@, host@),
            None => r is Err && r->Err_0 == Error::OllamaHostAddresMissing,
        },
{
    let keep_alive = match args.keep_alive {
        Some(v) => v,
        None => DEFAULT_KEEP_ALIVE,
    };
    let max_attempts = match args.max_attempts {
        Some(v) => v,
        None => DEFAULT_MAX_ATTEMPTS,
    };
    let mode = match &args.mode {
        Some(id) => Mode::resolve(Some(id.as_str())),
        None => Mode::resolve(None),
    };
    let host = match ollama_host {
        Some(host) => host,
        None => {
            return Err(Error::OllamaHostAddresMissing);
        },
    };
    let timeout = match args.timeout {
        Some(v) => v,
        None => DEFAULT_TIMEOUT,
    };
    Ok(
        Config::new(
            args.dir,
            args.end_line,
            args.file,
            keep_alive,
            max_attempts,
            mode,
            args.model,
            host,
            args.question,
            args.skip_larger,
            args.start_line,
            timeout,
        ),
    )
}

} // verus!
