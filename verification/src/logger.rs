//! The logging facade itself: the configuration record, its setters, and the
//! dispatcher that turns one event into the work of the three sinks.
//!
//! `emit` does no I/O. It snapshots the configuration, applies the level
//! filter, formats the line once, and returns a [`Dispatch`]: exactly what the
//! console, the file and the notification sink are to do for this event. The
//! caller performs those writes; a sink whose entry is `None` must stay
//! silent, so a below-threshold event has no observable effect at all.

use vstd::prelude::*;
use crate::format::{event_text, spec_event_text, spec_line, format_line};
use crate::severity::{passes, rank, severity_from_name, spec_passes, spec_severity_of, Severity};

verus! {

/// One append asked of the file sink: `line`, followed by a newline, goes to
/// the end of the file at `path`.
pub struct FileWrite {
    pub path: String,
    pub line: String,
}

/// One delivery asked of the notification sink: `payload` goes to
/// `destination`, authorized by the bearer credential `token`.
pub struct Notification {
    pub token: String,
    pub destination: String,
    pub payload: String,
}

/// Everything one `emit` call asks of the sinks; a `None` entry means that
/// sink stays silent for this event.
pub struct Dispatch {
    pub console: Option<String>,
    pub file: Option<FileWrite>,
    pub notification: Option<Notification>,
}

/// The facade's configuration: one record, read as a whole by every `emit`.
pub struct Logger {
    /// Logical tag prefixed to every line.
    pub name: String,
    /// Minimum severity for any sink to fire.
    pub level: Severity,
    /// When present, every passing event is appended to this file.
    pub log_file: Option<String>,
    /// When present, the notification sink is enabled and uses this credential.
    pub notify_token: Option<String>,
    /// Minimum severity for the notification sink alone.
    pub notify_level: Severity,
}

/// The destination tag a notification goes to: the one given with the event,
/// or the fixed fallback channel.
pub open spec fn spec_destination(destination: Option<Seq<char>>) -> Seq<char> {
    match destination {
        Some(d) => d,
        None => "#error"@,
    }
}

impl Logger {
    /// The console sink fires exactly when the event passes the global level.
    pub open spec fn console_fires(self, severity: Severity) -> bool {
        spec_passes(self.level, severity)
    }

    /// The file sink fires exactly when the event passes the global level and
    /// a log file is configured.
    pub open spec fn file_fires(self, severity: Severity) -> bool {
        self.console_fires(severity) && self.log_file.is_some()
    }

    /// The notification sink fires exactly when the event passes the global
    /// level, a credential is configured, and the event is forced or passes
    /// the notification level.
    pub open spec fn notify_fires(self, severity: Severity, force: bool) -> bool {
        self.console_fires(severity) && self.notify_token.is_some() && (force || spec_passes(
            self.notify_level,
            severity,
        ))
    }

    /// The one line every firing sink carries for this event.
    pub open spec fn emitted_line(
        self,
        severity: Severity,
        summary: Seq<char>,
        details: Option<Seq<char>>,
    ) -> Seq<char> {
        spec_line(self.name@, severity, spec_event_text(summary, details))
    }

    /// What `emit` returns: each sink's entry is present exactly when that
    /// sink fires, and a present entry carries the formatted line, the
    /// configured path and credential, and the resolved destination.
    pub open spec fn dispatch_ok(
        self,
        severity: Severity,
        summary: Seq<char>,
        details: Option<Seq<char>>,
        destination: Option<Seq<char>>,
        force: bool,
        d: Dispatch,
    ) -> bool {
        &&& d.console.is_some() == self.console_fires(severity)
        &&& d.file.is_some() == self.file_fires(severity)
        &&& d.notification.is_some() == self.notify_fires(severity, force)
        &&& (d.console matches Some(line) ==> line@ == self.emitted_line(
            severity,
            summary,
            details,
        ))
        &&& (d.file matches Some(f) ==> f.path@ == self.log_file.unwrap()@ && f.line@
            == self.emitted_line(severity, summary, details))
        &&& (d.notification matches Some(n) ==> n.token@ == self.notify_token.unwrap()@
            && n.destination@ == spec_destination(destination) && n.payload@ == self.emitted_line(
            severity,
            summary,
            details,
        ))
    }

    /// A fresh facade with the fixed defaults: tag `aklogger`, level `Info`,
    /// notification level `Info`, no file, no credential.
    pub fn new() -> (l: Logger)
        ensures
            l.name@ == "aklogger"@,
            l.level == Severity::Info,
            l.log_file.is_none(),
            l.notify_token.is_none(),
            l.notify_level == Severity::Info,
    {
        Logger {
            name: String::from_str("aklogger"),
            level: Severity::Info,
            log_file: None,
            notify_token: None,
            notify_level: Severity::Info,
        }
    }

    /// Replaces the logical tag; everything else is untouched.
    pub fn set_name(&mut self, name: String)
        ensures
            final(self).name == name,
            final(self).level == old(self).level,
            final(self).log_file == old(self).log_file,
            final(self).notify_token == old(self).notify_token,
            final(self).notify_level == old(self).notify_level,
    {
        self.name = name;
    }

    /// Replaces the global level; everything else is untouched.
    pub fn set_level(&mut self, level: Severity)
        ensures
            final(self).level == level,
            final(self).name == old(self).name,
            final(self).log_file == old(self).log_file,
            final(self).notify_token == old(self).notify_token,
            final(self).notify_level == old(self).notify_level,
    {
        self.level = level;
    }

    /// Replaces the notification level; everything else is untouched.
    pub fn set_notify_level(&mut self, level: Severity)
        ensures
            final(self).notify_level == level,
            final(self).name == old(self).name,
            final(self).level == old(self).level,
            final(self).log_file == old(self).log_file,
            final(self).notify_token == old(self).notify_token,
    {
        self.notify_level = level;
    }

    /// Replaces the global level with the severity a free-text name stands
    /// for — an unrecognized name means `Error`; everything else is
    /// untouched.
    pub fn set_level_name(&mut self, name: &str)
        ensures
            final(self).level == spec_severity_of(name@),
            final(self).name == old(self).name,
            final(self).log_file == old(self).log_file,
            final(self).notify_token == old(self).notify_token,
            final(self).notify_level == old(self).notify_level,
    {
        let severity = severity_from_name(name);
        self.set_level(severity);
    }

    /// Replaces the notification level with the severity a free-text name
    /// stands for — an unrecognized name means `Error`; everything else is
    /// untouched.
    pub fn set_notify_level_name(&mut self, name: &str)
        ensures
            final(self).notify_level == spec_severity_of(name@),
            final(self).name == old(self).name,
            final(self).level == old(self).level,
            final(self).log_file == old(self).log_file,
            final(self).notify_token == old(self).notify_token,
    {
        let severity = severity_from_name(name);
        self.set_notify_level(severity);
    }

    /// Stores the webhook credential, enabling the notification sink;
    /// everything else is untouched.
    pub fn enable_notifications(&mut self, token: String)
        ensures
            final(self).notify_token matches Some(t) && t == token,
            final(self).name == old(self).name,
            final(self).level == old(self).level,
            final(self).log_file == old(self).log_file,
            final(self).notify_level == old(self).notify_level,
    {
        self.notify_token = Some(token);
    }

    /// Records where passing events are appended, or disables file output;
    /// everything else is untouched. The caller must see to it that a
    /// recorded path names an existing, appendable file before the next
    /// event is dispatched.
    pub fn set_log_file(&mut self, path: Option<String>)
        ensures
            final(self).log_file == path,
            final(self).name == old(self).name,
            final(self).level == old(self).level,
            final(self).notify_token == old(self).notify_token,
            final(self).notify_level == old(self).notify_level,
    {
        self.log_file = path;
    }

    /// Dispatches one event: applies the level filter, formats the line once,
    /// and returns what each sink is to do. A `force` of `Some(true)`
    /// overrides the notification level, never the global one; a missing
    /// `destination` falls back to the fixed channel.
    pub fn emit(
        &self,
        severity: Severity,
        summary: &str,
        details: Option<&str>,
        destination: Option<&str>,
        force: Option<bool>,
    ) -> (d: Dispatch)
        ensures
            self.dispatch_ok(
                severity,
                summary@,
                details.deep_view(),
                destination.deep_view(),
                force == Some(true),
                d,
            ),
    {
        if !passes(self.level, severity) {
            return Dispatch { console: None, file: None, notification: None };
        }
        let text = event_text(summary, details);
        let line = format_line(self.name.as_str(), severity, text.as_str());
        let file = match &self.log_file {
            Some(path) => Some(FileWrite { path: path.clone(), line: line.clone() }),
            None => None,
        };
        let forced = match force {
            Some(b) => b,
            None => false,
        };
        let notification = match &self.notify_token {
            Some(token) => {
                if forced || passes(self.notify_level, severity) {
                    let dest = match destination {
                        Some(d) => String::from_str(d),
                        None => String::from_str("#error"),
                    };
                    Some(
                        Notification {
                            token: token.clone(),
                            destination: dest,
                            payload: line.clone(),
                        },
                    )
                } else {
                    None
                }
            },
            None => None,
        };
        Dispatch { console: Some(line), file, notification }
    }

    /// Dispatches one `Trace` event.
    pub fn trace(
        &self,
        summary: &str,
        details: Option<&str>,
        destination: Option<&str>,
        force: Option<bool>,
    ) -> (d: Dispatch)
        ensures
            self.dispatch_ok(
                Severity::Trace,
                summary@,
                details.deep_view(),
                destination.deep_view(),
                force == Some(true),
                d,
            ),
    {
        self.emit(Severity::Trace, summary, details, destination, force)
    }

    /// Dispatches one `Debug` event.
    pub fn debug(
        &self,
        summary: &str,
        details: Option<&str>,
        destination: Option<&str>,
        force: Option<bool>,
    ) -> (d: Dispatch)
        ensures
            self.dispatch_ok(
                Severity::Debug,
                summary@,
                details.deep_view(),
                destination.deep_view(),
                force == Some(true),
                d,
            ),
    {
        self.emit(Severity::Debug, summary, details, destination, force)
    }

    /// Dispatches one `Info` event.
    pub fn info(
        &self,
        summary: &str,
        details: Option<&str>,
        destination: Option<&str>,
        force: Option<bool>,
    ) -> (d: Dispatch)
        ensures
            self.dispatch_ok(
                Severity::Info,
                summary@,
                details.deep_view(),
                destination.deep_view(),
                force == Some(true),
                d,
            ),
    {
        self.emit(Severity::Info, summary, details, destination, force)
    }

    /// Dispatches one `Warn` event.
    pub fn warn(
        &self,
        summary: &str,
        details: Option<&str>,
        destination: Option<&str>,
        force: Option<bool>,
    ) -> (d: Dispatch)
        ensures
            self.dispatch_ok(
                Severity::Warn,
                summary@,
                details.deep_view(),
                destination.deep_view(),
                force == Some(true),
                d,
            ),
    {
        self.emit(Severity::Warn, summary, details, destination, force)
    }

    /// Dispatches one `Error` event.
    pub fn error(
        &self,
        summary: &str,
        details: Option<&str>,
        destination: Option<&str>,
        force: Option<bool>,
    ) -> (d: Dispatch)
        ensures
            self.dispatch_ok(
                Severity::Error,
                summary@,
                details.deep_view(),
                destination.deep_view(),
                force == Some(true),
                d,
            ),
    {
        self.emit(Severity::Error, summary, details, destination, force)
    }
}

/// Law: a dispatch for an event below the global level touches no sink —
/// no console entry, no file append, no notification, whatever the force
/// flag, the destination or the configuration of the other sinks.
pub proof fn lemma_below_threshold_silent(
    c: Logger,
    severity: Severity,
    summary: Seq<char>,
    details: Option<Seq<char>>,
    destination: Option<Seq<char>>,
    force: bool,
    d: Dispatch,
)
    requires
        !spec_passes(c.level, severity),
        c.dispatch_ok(severity, summary, details, destination, force, d),
    ensures
        d.console.is_none(),
        d.file.is_none(),
        d.notification.is_none(),
{
}

/// Law: raising the global level above an event's severity silences that
/// event, even where it passed the old level, and leaves every sink —
/// console, file, notification, forced or not — without work.
pub proof fn lemma_stricter_level_silences(
    before: Logger,
    after: Logger,
    severity: Severity,
    summary: Seq<char>,
    details: Option<Seq<char>>,
    destination: Option<Seq<char>>,
    force: bool,
    d: Dispatch,
)
    requires
        spec_passes(before.level, severity),
        rank(before.level) < rank(after.level),
        !spec_passes(after.level, severity),
        after.name == before.name,
        after.log_file == before.log_file,
        after.notify_token == before.notify_token,
        after.notify_level == before.notify_level,
        after.dispatch_ok(severity, summary, details, destination, force, d),
    ensures
        d.console.is_none(),
        d.file.is_none(),
        d.notification.is_none(),
{
}

/// Law: the notification sink fires for a globally passing event whenever it
/// is forced, regardless of the notification level; unforced, it fires
/// exactly when the event also passes the notification level; and without a
/// credential it never fires, whatever the severity or the force flag.
pub proof fn lemma_notification_policy(c: Logger, severity: Severity, force: bool)
    ensures
        c.notify_token.is_none() ==> !c.notify_fires(severity, force),
        c.notify_token.is_some() && spec_passes(c.level, severity) ==> c.notify_fires(
            severity,
            true,
        ),
        c.notify_fires(severity, false) == (c.notify_token.is_some() && spec_passes(
            c.level,
            severity,
        ) && spec_passes(c.notify_level, severity)),
{
}

} // verus!
