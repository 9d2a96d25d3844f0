//! Stdio Redirector: scoped duplication and overlay of the standard
//! streams onto supplied descriptors. The caller owns the underlying
//! files; the redirector only decides which overlays to perform and
//! enforces that each stream is redirected at most once per process. The
//! `dup`/`dup2` system calls themselves are the embedding process's side;
//! a failure there — an already-closed handle among them — is surfaced,
//! never silently ignored.

use vstd::prelude::*;

verus! {

/// Up to three optional descriptor handles, borrowed from the caller.
#[derive(Clone, Copy, PartialEq, Eq, Structural, Debug)]
pub struct StdioDescriptors {
    pub stdin: Option<i32>,
    pub stdout: Option<i32>,
    pub stderr: Option<i32>,
}

/// One of the three standard streams.
#[derive(Clone, Copy, PartialEq, Eq, Structural, Debug)]
pub enum StreamSlot {
    Stdin,
    Stdout,
    Stderr,
}

/// One overlay to perform: this handle onto this stream's slot.
#[derive(Clone, Copy, PartialEq, Eq, Structural, Debug)]
pub struct RedirectStep {
    pub slot: StreamSlot,
    pub fd: i32,
}

/// A second redirection of the same stream in one process.
#[derive(Clone, Copy, PartialEq, Eq, Structural, Debug)]
pub struct AlreadyRedirected;

/// The overlay a present handle contributes.
pub open spec fn slot_steps(fd: Option<i32>, slot: StreamSlot) -> Seq<RedirectStep> {
    match fd {
        None => Seq::empty(),
        Some(fd) => seq![RedirectStep { slot, fd }],
    }
}

/// The overlays a descriptor set demands: one per present handle, in
/// stdin, stdout, stderr order; absent handles contribute nothing.
pub open spec fn redirect_steps_spec(d: StdioDescriptors) -> Seq<RedirectStep> {
    slot_steps(d.stdin, StreamSlot::Stdin) + slot_steps(d.stdout, StreamSlot::Stdout) + slot_steps(
        d.stderr,
        StreamSlot::Stderr,
    )
}

/// Plans the overlays for a descriptor set, as `redirect_steps_spec` says.
pub fn redirect_steps(d: &StdioDescriptors) -> (r: Vec<RedirectStep>)
    ensures
        r@ == redirect_steps_spec(*d),
{
    let mut r: Vec<RedirectStep> = Vec::new();
    if let Some(fd) = d.stdin {
        r.push(RedirectStep { slot: StreamSlot::Stdin, fd });
    }
    if let Some(fd) = d.stdout {
        r.push(RedirectStep { slot: StreamSlot::Stdout, fd });
    }
    if let Some(fd) = d.stderr {
        r.push(RedirectStep { slot: StreamSlot::Stderr, fd });
    }
    proof {
        assert(r@ =~= redirect_steps_spec(*d));
    }
    r
}

/// Tracks which streams this process has already redirected, so that each
/// stream is overlaid at most once.
pub struct StdioRedirector {
    stdin_done: bool,
    stdout_done: bool,
    stderr_done: bool,
}

impl StdioRedirector {
    /// Whether the given stream has been redirected.
    pub closed spec fn done(&self, slot: StreamSlot) -> bool {
        match slot {
            StreamSlot::Stdin => self.stdin_done,
            StreamSlot::Stdout => self.stdout_done,
            StreamSlot::Stderr => self.stderr_done,
        }
    }

    /// A fresh process: nothing redirected yet.
    pub fn new() -> (r: Self)
        ensures
            forall|slot: StreamSlot| !r.done(slot),
    {
        StdioRedirector { stdin_done: false, stdout_done: false, stderr_done: false }
    }

    /// Claims one stream for redirection: accepted the first time, refused
    /// — with the other streams untouched — on any repeat.
    pub fn mark_redirected(&mut self, slot: StreamSlot) -> (r: Result<(), AlreadyRedirected>)
        ensures
            r is Ok <==> !old(self).done(slot),
            !old(self).done(slot) ==> final(self).done(slot) && (forall|other: StreamSlot|
                other != slot ==> final(self).done(other) == old(self).done(other)),
            old(self).done(slot) ==> *final(self) == *old(self) && r == Err::<
                (),
                AlreadyRedirected,
            >(AlreadyRedirected),
    {
        match slot {
            StreamSlot::Stdin => {
                if self.stdin_done {
                    return Err(AlreadyRedirected);
                }
                self.stdin_done = true;
            },
            StreamSlot::Stdout => {
                if self.stdout_done {
                    return Err(AlreadyRedirected);
                }
                self.stdout_done = true;
            },
            StreamSlot::Stderr => {
                if self.stderr_done {
                    return Err(AlreadyRedirected);
                }
                self.stderr_done = true;
            },
        }
        Ok(())
    }
}

/// Whether a pipe path asks for a stream at all: an empty path means the
/// stream is not piped and nothing is opened for it.
pub fn pipe_requested(path: &str) -> (r: bool)
    ensures
        r == (path@.len() != 0),
{
    path.unicode_len() != 0
}

} // verus!
