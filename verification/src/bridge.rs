//! The completion bridge: a one-shot cell that turns the runtime's completion
//! callback into a result that its caller can wait for.
//!
//! A token is made before the native call is issued. The callback resolves it
//! once, with the value and status it was called with; where the callback can
//! no longer come, the token is abandoned instead. Whichever of the two
//! happens first decides what the waiting side receives, and until one of
//! them has happened the waiting side receives nothing.

use vstd::prelude::*;

verus! {

/// What the waiting side of a token receives.
#[derive(Debug, PartialEq, Eq)]
pub enum Completion<T> {
    /// The callback fired: the value it supplied where its status was zero,
    /// else the status.
    Delivered(Result<T, i32>),
    /// The callback will not fire.
    Abandoned,
}

/// What a callback's arguments stand for: a status of zero carries the
/// value, any other status is the failure itself.
pub open spec fn spec_decode<T>(value: T, status: i32) -> Result<T, i32> {
    if status == 0 {
        Ok(value)
    } else {
        Err(status)
    }
}

pub fn decode<T>(value: T, status: i32) -> (result: Result<T, i32>)
    ensures
        result == spec_decode(value, status),
{
    if status == 0 {
        Ok(value)
    } else {
        Err(status)
    }
}

/// What is done to a token after it has been made.
pub enum Signal<T> {
    /// The callback fires with this value and status.
    Fire(T, i32),
    /// The resolving side goes away without having fired.
    Abandon,
}

/// What a signal stands for on the waiting side.
pub open spec fn spec_carried<T>(signal: Signal<T>) -> Completion<T> {
    match signal {
        Signal::Fire(value, status) => Completion::Delivered(spec_decode(value, status)),
        Signal::Abandon => Completion::Abandoned,
    }
}

/// The state of a token once a signal has reached it: a pending token is
/// settled by the signal, a settled one stays as it is.
pub open spec fn spec_signal<T>(state: Option<Completion<T>>, signal: Signal<T>) -> Option<
    Completion<T>,
> {
    match state {
        None => Some(spec_carried(signal)),
        Some(completion) => Some(completion),
    }
}

/// The state of a token once a series of signals has reached it, one after
/// the other.
pub open spec fn spec_signals<T>(state: Option<Completion<T>>, signals: Seq<Signal<T>>) -> Option<
    Completion<T>,
>
    decreases signals.len(),
{
    if signals.len() == 0 {
        state
    } else {
        spec_signals(spec_signal(state, signals[0]), signals.drop_first())
    }
}

/// The slot shared by the waiting and the resolving side of one native call.
#[derive(Debug)]
pub struct CompletionToken<T> {
    state: Option<Completion<T>>,
}

/// What a look at a token gives.
#[derive(Debug)]
pub enum Awaited<T> {
    /// Nothing has been delivered yet; the token is handed back.
    Pending(CompletionToken<T>),
    /// The token is settled and used up.
    Ready(Completion<T>),
}

impl<T> CompletionToken<T> {
    /// What has settled the token, `None` while it is pending.
    pub closed spec fn state(&self) -> Option<Completion<T>> {
        self.state
    }

    /// A fresh, pending token.
    pub fn begin() -> (token: Self)
        ensures
            token.state() is None,
    {
        CompletionToken { state: None }
    }

    pub fn is_pending(&self) -> (pending: bool)
        ensures
            pending == self.state() is None,
    {
        self.state.is_none()
    }

    /// The callback: settles a pending token with what it was called with.
    /// A token that is settled already stays as it is, and `false` is
    /// returned.
    pub fn resolve(&mut self, value: T, status: i32) -> (first: bool)
        ensures
            first == old(self).state() is None,
            final(self).state() == spec_signal(old(self).state(), Signal::Fire(value, status)),
    {
        if self.state.is_none() {
            self.state = Some(Completion::Delivered(decode(value, status)));
            true
        } else {
            false
        }
    }

    /// The resolving side went away: settles a pending token as abandoned.
    /// A token that is settled already stays as it is, and `false` is
    /// returned.
    pub fn abandon(&mut self) -> (first: bool)
        ensures
            first == old(self).state() is None,
            final(self).state() == spec_signal(old(self).state(), Signal::<T>::Abandon),
    {
        if self.state.is_none() {
            self.state = Some(Completion::Abandoned);
            true
        } else {
            false
        }
    }

    /// Applies one signal, whichever it is.
    pub fn signal(&mut self, signal: Signal<T>) -> (first: bool)
        ensures
            first == old(self).state() is None,
            final(self).state() == spec_signal(old(self).state(), signal),
    {
        match signal {
            Signal::Fire(value, status) => self.resolve(value, status),
            Signal::Abandon => self.abandon(),
        }
    }

    /// The waiting side's look at the token. It never blocks: a token that
    /// is still pending comes back unchanged to be looked at again.
    pub fn poll(self) -> (awaited: Awaited<T>)
        ensures
            match awaited {
                Awaited::Pending(token) => self.state() is None && token == self,
                Awaited::Ready(completion) => self.state() == Some(completion),
            },
    {
        match self.state {
            None => Awaited::Pending(CompletionToken { state: None }),
            Some(completion) => Awaited::Ready(completion),
        }
    }
}

/// A settled token is not changed by anything that follows.
pub proof fn lemma_settled_stays<T>(completion: Completion<T>, signals: Seq<Signal<T>>)
    ensures
        spec_signals(Some(completion), signals) == Some(completion),
    decreases signals.len(),
{
    if signals.len() > 0 {
        lemma_settled_stays(completion, signals.drop_first());
    }
}

/// The bridge delivers exactly what the callback supplied, and nothing
/// before the callback has fired. A fresh token stays pending as long as no
/// signal has reached it; from the first signal on it holds what that signal
/// carried, whatever arrives later: for a callback that fired, the value
/// and the status it was called with.
pub proof fn law_single_delivery<T>(signals: Seq<Signal<T>>)
    ensures
        spec_signals(None, signals) is None <==> signals.len() == 0,
        signals.len() > 0 ==> spec_signals(None, signals) == Some(spec_carried(signals[0])),
        signals.len() > 0 ==> (signals[0] matches Signal::Fire(value, status) ==> spec_signals(
            None,
            signals,
        ) == Some(Completion::Delivered(spec_decode(value, status)))),
{
    if signals.len() > 0 {
        lemma_settled_stays(spec_carried(signals[0]), signals.drop_first());
    }
}

} // verus!
