//! Timestamped user messages and values that carry messages along.

use vstd::prelude::*;

verus! {

#[verifier::external_type_specification]
#[verifier::external_body]
pub struct ExInstant(std::time::Instant);

/// Reads the clock with `Instant::now`. The instant depends on the clock, so nothing is
/// stated of it.
#[verifier::external_body]
fn instant_now() -> std::time::Instant {
    std::time::Instant::now()
}

/// Nanoseconds elapsed since `t`: `Instant::elapsed` (documented as
/// `Instant::now().duration_since(t)`) read with `Duration::as_nanos`. The value depends
/// on the clock, so nothing is stated of it.
#[verifier::external_body]
fn nanos_since(t: &std::time::Instant) -> u128 {
    t.elapsed().as_nanos()
}

/// How long a message stays on screen, in nanoseconds (five seconds).
pub const MESSAGE_LIFETIME_NANOS: u128 = 5_000_000_000;

#[derive(Debug, Clone, Copy, PartialEq, Eq, Structural)]
pub enum Urgency {
    Info,
    Warning,
    Error,
}

#[derive(Debug)]
pub struct Message {
    pub timestamp: std::time::Instant,
    pub urgency: Urgency,
    pub content: String,
}

/// What a message says, without its timestamp.
pub struct MessageView {
    pub urgency: Urgency,
    pub content: Seq<char>,
}

impl View for Message {
    type V = MessageView;

    open spec fn view(&self) -> MessageView {
        MessageView { urgency: self.urgency, content: self.content@ }
    }
}

impl DeepView for Message {
    type V = MessageView;

    open spec fn deep_view(&self) -> MessageView {
        self@
    }
}

impl Message {
    /// A message stamped with the current time.
    pub fn new(content: String, urgency: Urgency) -> (r: Self)
        ensures
            r@ == (MessageView { urgency, content: content@ }),
    {
        Self { timestamp: instant_now(), urgency, content }
    }

    pub fn info(content: String) -> (r: Self)
        ensures
            r@ == (MessageView { urgency: Urgency::Info, content: content@ }),
    {
        Self::new(content, Urgency::Info)
    }

    pub fn warning(content: String) -> (r: Self)
        ensures
            r@ == (MessageView { urgency: Urgency::Warning, content: content@ }),
    {
        Self::new(content, Urgency::Warning)
    }

    pub fn error(content: String) -> (r: Self)
        ensures
            r@ == (MessageView { urgency: Urgency::Error, content: content@ }),
    {
        Self::new(content, Urgency::Error)
    }

    /// Downgrades an error to a warning; other messages are returned as they are.
    pub fn err_to_warn(self) -> (r: Self)
        ensures
            r.timestamp == self.timestamp,
            r.content == self.content,
            r.urgency == downgraded(self.urgency),
    {
        match self.urgency {
            Urgency::Error => Self {
                timestamp: self.timestamp,
                content: self.content,
                urgency: Urgency::Warning,
            },
            _ => self,
        }
    }

    /// Upgrades a warning to an error; other messages are returned as they are.
    pub fn warn_to_err(self) -> (r: Self)
        ensures
            r.timestamp == self.timestamp,
            r.content == self.content,
            r.urgency == upgraded(self.urgency),
    {
        match self.urgency {
            Urgency::Warning => Self {
                timestamp: self.timestamp,
                content: self.content,
                urgency: Urgency::Error,
            },
            _ => self,
        }
    }

    /// Whether a message this many nanoseconds old has outlived its lifetime.
    pub fn expired_after(elapsed_nanos: u128) -> (r: bool)
        ensures
            r == (elapsed_nanos > MESSAGE_LIFETIME_NANOS),
    {
        elapsed_nanos > MESSAGE_LIFETIME_NANOS
    }

    /// Whether the message is older than its lifetime. The answer depends on the clock.
    pub fn has_expired(&self) -> bool {
        Self::expired_after(nanos_since(&self.timestamp))
    }
}

/// The urgency after `err_to_warn`.
pub open spec fn downgraded(u: Urgency) -> Urgency {
    if u == Urgency::Error {
        Urgency::Warning
    } else {
        u
    }
}

/// The urgency after `warn_to_err`.
pub open spec fn upgraded(u: Urgency) -> Urgency {
    if u == Urgency::Warning {
        Urgency::Error
    } else {
        u
    }
}

/// `warn_to_err` undoes `err_to_warn` on errors, `err_to_warn` undoes `warn_to_err` on
/// warnings, and each of them changes nothing when applied a second time.
pub proof fn law_urgency_round_trip(u: Urgency)
    ensures
        u == Urgency::Error ==> upgraded(downgraded(u)) == u,
        u == Urgency::Warning ==> downgraded(upgraded(u)) == u,
        downgraded(downgraded(u)) == downgraded(u),
        upgraded(upgraded(u)) == upgraded(u),
{
}

/// A value together with the messages produced while computing it.
#[derive(Debug)]
pub struct WithMessages<T> {
    pub inner: T,
    pub messages: Vec<Message>,
}

impl<T: Default> Default for WithMessages<T> {
    fn default() -> (r: Self)
        ensures
            call_ensures(T::default, (), r.inner),
            r.messages@.len() == 0,
    {
        Self { inner: T::default(), messages: Vec::new() }
    }
}

impl<T: Default> WithMessages<T> {
    pub fn from_message(messages: Message) -> (r: Self)
        ensures
            call_ensures(T::default, (), r.inner),
            r.messages@ == seq![messages],
    {
        let mut v = Vec::new();
        v.push(messages);
        Self { inner: T::default(), messages: v }
    }

    pub fn from_messages(messages: Vec<Message>) -> (r: Self)
        ensures
            call_ensures(T::default, (), r.inner),
            r.messages == messages,
    {
        Self { inner: T::default(), messages }
    }
}

impl<T> WithMessages<T> {
    pub fn from_value(inner: T) -> (r: Self)
        ensures
            r.inner == inner,
            r.messages@.len() == 0,
    {
        Self { inner, messages: Vec::new() }
    }

    pub fn new(inner: T, messages: Vec<Message>) -> (r: Self)
        ensures
            r.inner == inner,
            r.messages == messages,
    {
        Self { inner, messages }
    }

    /// Moves the messages to the end of `global_messages` and returns the value.
    pub fn append_messages(self, global_messages: &mut Vec<Message>) -> (r: T)
        ensures
            r == self.inner,
            final(global_messages)@ == old(global_messages)@ + self.messages@,
    {
        let Self { inner, mut messages } = self;
        global_messages.append(&mut messages);
        inner
    }

    pub fn destructure(self) -> (r: (T, Vec<Message>))
        ensures
            r.0 == self.inner,
            r.1 == self.messages,
    {
        let Self { inner, messages } = self;
        (inner, messages)
    }

    /// Applies `f` to the value and keeps the messages.
    pub fn map<B, F>(self, f: F) -> (r: WithMessages<B>) where F: FnOnce(T) -> B
        requires
            f.requires((self.inner,)),
        ensures
            f.ensures((self.inner,), r.inner),
            r.messages == self.messages,
    {
        let WithMessages::<T> { inner, messages } = self;
        WithMessages::<B> { inner: f(inner), messages }
    }
}

} // verus!
