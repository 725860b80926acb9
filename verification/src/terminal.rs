//! A registry of terminals under identifiers that the caller chooses, without
//! a limit on their number and without a record of activity.

use crate::error::PtyError;
use crate::factory::TerminalSize;
use crate::pump::{asks_to_stop, bytes_read, read_step, utf8_lossy, PumpStep};
use crate::table::{lemma_keyed_len, IdTable};
use vstd::prelude::*;

verus! {

/// A terminal: an identifier and the resources that belong to it.
pub struct Terminal<H> {
    pub id: String,
    pub handle: H,
}

/// The handles recorded under the identifiers of a table of terminals.
pub open spec fn handles<H>(m: Map<Seq<char>, Terminal<H>>) -> Map<Seq<char>, H> {
    m.map_values(|t: Terminal<H>| t.handle)
}

/// The registry of open terminals.
pub struct TerminalManager<H> {
    terminals: IdTable<Terminal<H>>,
}

impl<H> View for TerminalManager<H> {
    type V = Map<Seq<char>, H>;

    closed spec fn view(&self) -> Map<Seq<char>, H> {
        handles(self.terminals@)
    }
}

impl<H> TerminalManager<H> {
    /// Each terminal is recorded under its own identifier, and no identifier
    /// is recorded twice.
    pub closed spec fn wf(&self) -> bool {
        &&& self.terminals.wf()
        &&& forall|k: Seq<char>| #[trigger]
            self.terminals@.contains_key(k) ==> self.terminals@[k].id@ == k
    }

    /// An empty registry.
    pub fn new() -> (m: Self)
        ensures
            m.wf(),
            m@ == Map::<Seq<char>, H>::empty(),
    {
        let m = TerminalManager { terminals: IdTable::new() };
        assert(m@ =~= Map::<Seq<char>, H>::empty());
        m
    }

    /// The number of open terminals.
    pub fn len(&self) -> (n: usize)
        requires
            self.wf(),
        ensures
            self@.dom().finite(),
            n == self@.len(),
    {
        proof {
            lemma_keyed_len(self.terminals.keys(), self.terminals.values());
            assert(self@.dom() =~= self.terminals@.dom());
        }
        self.terminals.len()
    }

    /// Whether `id` names an open terminal.
    pub fn contains(&self, id: &str) -> (b: bool)
        requires
            self.wf(),
        ensures
            b == self@.contains_key(id@),
    {
        self.terminals.contains_key(id)
    }

    /// Records a terminal under `id`, with `handle` for its resources, and
    /// hands the identifier back. If `id` names an open terminal already,
    /// nothing is recorded and the handle is dropped.
    pub fn create_terminal(&mut self, id: String, handle: H) -> (r: Result<String, PtyError>)
        requires
            old(self).wf(),
        ensures
            final(self).wf(),
            if old(self)@.contains_key(id@) {
                &&& r == Err::<String, PtyError>(PtyError::IdCollision)
                &&& final(self)@ == old(self)@
            } else {
                &&& r matches Ok(given)
                &&& given@ == id@
                &&& final(self)@ == old(self)@.insert(id@, handle)
            },
    {
        if self.terminals.contains_key(id.as_str()) {
            return Err(PtyError::IdCollision);
        }
        let given = id.clone();
        let ghost before = self.terminals;
        let _ = self.terminals.insert(given.clone(), Terminal { id, handle });
        assert(self@ =~= handles(before@).insert(id@, handle));
        Ok(given)
    }

    /// Lends out the handle of the terminal `id`, so that the caller can
    /// write to it and flush.
    pub fn write_to_terminal(&mut self, id: &str) -> (r: Result<&mut H, PtyError>)
        requires
            old(self).wf(),
        ensures
            final(self).wf(),
            match r {
                Ok(h) => {
                    &&& old(self)@.contains_key(id@)
                    &&& *h == old(self)@[id@]
                    &&& final(self)@ == old(self)@.insert(id@, *final(h))
                },
                Err(e) => {
                    &&& !old(self)@.contains_key(id@)
                    &&& e == PtyError::SessionNotFound
                    &&& final(self)@ == old(self)@
                },
            },
    {
        match self.terminals.get_mut(id) {
            Some(terminal) => Ok(&mut terminal.handle),
            None => Err(PtyError::SessionNotFound),
        }
    }

    /// Lends out the handle of the terminal `id` together with the size to
    /// set, which has the given rows and columns and leaves the pixel
    /// dimensions open.
    pub fn resize_terminal(&mut self, id: &str, rows: u16, cols: u16) -> (r: Result<
        (&mut H, TerminalSize),
        PtyError,
    >)
        requires
            old(self).wf(),
        ensures
            final(self).wf(),
            match r {
                Ok(loan) => {
                    &&& old(self)@.contains_key(id@)
                    &&& *loan.0 == old(self)@[id@]
                    &&& loan.1 == TerminalSize::of_cells(rows, cols)
                    &&& final(self)@ == old(self)@.insert(id@, *final(loan.0))
                },
                Err(e) => {
                    &&& !old(self)@.contains_key(id@)
                    &&& e == PtyError::SessionNotFound
                    &&& final(self)@ == old(self)@
                },
            },
    {
        match self.write_to_terminal(id) {
            Ok(handle) => Ok((handle, TerminalSize::new(rows, cols))),
            Err(e) => Err(e),
        }
    }

    /// Decides what the reader of the terminal `id` does after a read.
    /// `read` holds the bytes that were read, or nothing if reading failed;
    /// no bytes mean that the terminal is closed. Bytes are reported as text.
    /// A closed or broken terminal ends the reader, and the terminal is
    /// removed.
    pub fn pump_step(&mut self, id: &str, read: Option<&[u8]>) -> (step: PumpStep)
        requires
            old(self).wf(),
        ensures
            final(self).wf(),
            step == PumpStep::Stop <==> asks_to_stop(bytes_read(read)),
            asks_to_stop(bytes_read(read)) ==> final(self)@ == old(self)@.remove(id@),
            !asks_to_stop(bytes_read(read)) ==> {
                &&& step matches PumpStep::Emit(out)
                &&& out.id@ == id@
                &&& out.data@ == utf8_lossy(read->0@)
                &&& final(self)@ == old(self)@
            },
    {
        let step = read_step(id, read);
        match step {
            PumpStep::Emit(_) => {},
            PumpStep::Stop => {
                let _ = self.close_terminal(id);
            },
        }
        step
    }

    /// Removes the terminal `id` and drops its handle.
    pub fn close_terminal(&mut self, id: &str) -> (r: Result<(), PtyError>)
        requires
            old(self).wf(),
        ensures
            final(self).wf(),
            final(self)@ == old(self)@.remove(id@),
            old(self)@.contains_key(id@) ==> r is Ok,
            !old(self)@.contains_key(id@) ==> r == Err::<(), PtyError>(PtyError::SessionNotFound),
    {
        let removed = self.terminals.remove(id);
        assert(self@ =~= old(self)@.remove(id@));
        match removed {
            Some(_) => Ok(()),
            None => Err(PtyError::SessionNotFound),
        }
    }
}

} // verus!
