//! The shape of a progress line: level, then the source and the component
//! that wrote it, then the message.
use crate::text::concat3;
use vstd::prelude::*;

verus! {

/// How important a line is.
#[derive(Debug, Clone, Copy, PartialEq, Eq, Structural)]
pub enum LogLevel {
    Info,
    Debug,
}

/// Which part of the program a line comes from.
#[derive(Debug, Clone, Copy, PartialEq, Eq, Structural)]
pub enum LogSource {
    Microphone,
    Application,
    System,
}

pub open spec fn level_tag(level: LogLevel) -> Seq<char> {
    match level {
        LogLevel::Info => "[info] "@,
        LogLevel::Debug => "[debug] "@,
    }
}

pub open spec fn source_tag(source: Option<LogSource>) -> Seq<char> {
    match source {
        None => Seq::empty(),
        Some(LogSource::Microphone) => "[microphone] "@,
        Some(LogSource::Application) => "[application] "@,
        Some(LogSource::System) => "[system] "@,
    }
}

pub open spec fn component_tag(component: Option<Seq<char>>) -> Seq<char> {
    match component {
        None => Seq::empty(),
        Some(c) => "["@ + c + "] "@,
    }
}

/// `[level] [source] [component] message`, each tag present only when
/// known.
pub fn format_log_line(
    level: LogLevel,
    source: Option<LogSource>,
    component: Option<&str>,
    message: &str,
) -> (r: String)
    ensures
        r@ == level_tag(level) + source_tag(source) + component_tag(
            match component {
                Some(c) => Some(c@),
                None => None,
            },
        ) + message@,
{
    let level_text = match level {
        LogLevel::Info => "[info] ",
        LogLevel::Debug => "[debug] ",
    };
    let source_text = match source {
        None => "",
        Some(LogSource::Microphone) => "[microphone] ",
        Some(LogSource::Application) => "[application] ",
        Some(LogSource::System) => "[system] ",
    };
    let head = concat3(level_text, source_text, "");
    let with_component = match component {
        Some(c) => {
            let tag = concat3("[", c, "] ");
            concat3(head.as_str(), tag.as_str(), "")
        },
        None => concat3(head.as_str(), "", ""),
    };
    let r = concat3(with_component.as_str(), message, "");
    proof {
        reveal_strlit("");
    }
    assert(r@ =~= level_tag(level) + source_tag(source) + component_tag(
        match component {
            Some(c) => Some(c@),
            None => None,
        },
    ) + message@);
    r
}

} // verus!
