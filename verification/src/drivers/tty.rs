//! Terminals: the sessions the kernel writes its output to and buffers its input for
use vstd::prelude::*;
use vstd::string::StringSliceAdditionalSpecFns;

verus! {

/// A tty provider, this can be a serial or graphics device
pub trait TtyProvider {
    fn write(&mut self, buf: &[u8]);
}

/// A handle to an active tty session
pub struct TtyHandle<P> {
    provider: P,
    stdin: Vec<u8>,
}

impl<P: TtyProvider> TtyHandle<P> {
    /// The bytes waiting in the stdin queue, oldest first.
    pub closed spec fn stdin(&self) -> Seq<u8> {
        self.stdin@
    }

    /// The provider that output goes to.
    pub closed spec fn provider(&self) -> P {
        self.provider
    }

    pub fn new(provider: P) -> (handle: TtyHandle<P>)
        ensures
            handle.stdin() == Seq::<u8>::empty(),
            handle.provider() == provider,
    {
        TtyHandle { provider, stdin: Vec::new() }
    }

    /// Push a byte to the stdin queue
    pub fn push(&mut self, byte: u8)
        ensures
            final(self).stdin() == old(self).stdin().push(byte),
            final(self).provider() == old(self).provider(),
    {
        self.stdin.push(byte);
    }

    /// Write text to the provider of the session: its bytes are handed to the provider's
    /// `write` in one call
    pub fn write_str(&mut self, buf: &str)
        ensures
            final(self).stdin() == old(self).stdin(),
            exists|provider: &mut P, bytes: &[u8]| {
                &&& bytes@ == buf.spec_bytes()
                &&& *provider == old(self).provider()
                &&& *final(provider) == final(self).provider()
                &&& #[trigger] call_ensures(P::write, (provider, bytes), ())
            },
    {
        self.provider.write(buf.as_bytes());
    }
}

/// A pool of active tty sessions
pub struct TtyPool<P> {
    handles: Vec<TtyHandle<P>>,
    current: Option<usize>,
}

impl<P: TtyProvider> TtyPool<P> {
    /// The stdin queue of each session, by index.
    pub closed spec fn stdins(&self) -> Seq<Seq<u8>> {
        self.handles@.map_values(|h: TtyHandle<P>| h.stdin())
    }

    /// The provider of each session, by index.
    pub closed spec fn providers(&self) -> Seq<P> {
        self.handles@.map_values(|h: TtyHandle<P>| h.provider())
    }

    /// The session that input and output go to, if one was chosen.
    pub closed spec fn current(&self) -> Option<usize> {
        self.current
    }

    /// No session is chosen, or the chosen one exists.
    pub open spec fn current_valid(&self) -> bool {
        match self.current() {
            Some(i) => i < self.stdins().len(),
            None => true,
        }
    }

    /// The number of sessions in the pool
    pub fn len(&self) -> (n: usize)
        ensures
            n == self.stdins().len(),
    {
        self.handles.len()
    }

    /// The session that input and output go to, if one was chosen
    pub fn current_session(&self) -> (c: Option<usize>)
        ensures
            c == self.current(),
    {
        self.current
    }

    pub fn new() -> (pool: TtyPool<P>)
        ensures
            pool.stdins() == Seq::<Seq<u8>>::empty(),
            pool.providers() == Seq::<P>::empty(),
            pool.current() == None::<usize>,
    {
        let pool = TtyPool { handles: Vec::new(), current: None };
        pool
    }

    /// Add a session to the pool and return its index
    pub fn create(&mut self, tty: TtyHandle<P>) -> (index: usize)
        requires
            old(self).stdins().len() < usize::MAX,
        ensures
            index == old(self).stdins().len(),
            final(self).stdins() == old(self).stdins().push(tty.stdin()),
            final(self).providers() == old(self).providers().push(tty.provider()),
            final(self).current() == old(self).current(),
    {
        self.handles.push(tty);
        self.handles.len() - 1
    }

    /// Choose the session that input and output go to
    pub fn switch(&mut self, index: usize)
        ensures
            final(self).current() == Some(index),
            final(self).stdins() == old(self).stdins(),
            final(self).providers() == old(self).providers(),
    {
        self.current = Some(index);
    }

    /// Push a byte to the stdin queue of the current tty; without a current tty the byte is
    /// dropped
    pub fn push(&mut self, byte: u8)
        requires
            old(self).current_valid(),
        ensures
            final(self).current() == old(self).current(),
            final(self).stdins() == match old(self).current() {
                Some(i) => old(self).stdins().update(i as int, old(self).stdins()[i as int].push(byte)),
                None => old(self).stdins(),
            },
            final(self).providers() == old(self).providers(),
    {
        if let Some(current) = self.current {
            self.handles[current].push(byte);
        }
    }

    /// Write text to the current tty; without a current tty the text is dropped
    pub fn write_str(&mut self, buf: &str)
        requires
            old(self).current_valid(),
        ensures
            final(self).current() == old(self).current(),
            final(self).stdins() == old(self).stdins(),
            final(self).providers().len() == old(self).providers().len(),
            forall|j: int|
                0 <= j < old(self).providers().len() && Some(j as usize) != old(self).current()
                    ==> #[trigger] final(self).providers()[j] == old(self).providers()[j],
            match old(self).current() {
                Some(i) => exists|provider: &mut P, bytes: &[u8]| {
                    &&& bytes@ == buf.spec_bytes()
                    &&& *provider == old(self).providers()[i as int]
                    &&& *final(provider) == final(self).providers()[i as int]
                    &&& #[trigger] call_ensures(P::write, (provider, bytes), ())
                },
                None => true,
            },
    {
        if let Some(current) = self.current {
            self.handles[current].write_str(buf);
        }
    }
}

} // verus!
