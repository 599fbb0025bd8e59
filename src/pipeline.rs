//! The decisions of the acquisition loop: each line read from the meter
//! moves the framer on, and a completed telegram is either handed to the
//! queue as a reading or skipped with the error that rejected it.

use vstd::prelude::*;

use crate::framer::{frame_step, Framer};
use crate::telegram::{lines_view, parse_message, usage_of};
use crate::types::{DsmrError, UsageData};

verus! {

/// What the acquisition loop does after a line.
#[derive(Debug, PartialEq)]
pub enum ProducerAction {
    /// The line completed no telegram: read the next one.
    Wait,
    /// A telegram was assembled: hand the reading to the queue.
    Emit(UsageData),
    /// A telegram was rejected: report the error and go on.
    Skip(DsmrError),
}

/// The state of the acquisition loop.
pub struct Producer {
    framer: Framer,
}

impl Producer {
    /// Whether a telegram is open.
    pub closed spec fn collecting(&self) -> bool {
        self.framer.collecting()
    }

    /// The data lines of the open telegram so far.
    pub closed spec fn collected(&self) -> Seq<Seq<char>> {
        self.framer.collected()
    }

    pub closed spec fn wf(&self) -> bool {
        self.framer.wf()
    }

    /// A producer waiting for the start of a telegram.
    pub fn new() -> (r: Producer)
        ensures
            r.wf(),
            !r.collecting(),
            r.collected() == Seq::<Seq<char>>::empty(),
    {
        Producer { framer: Framer::new() }
    }

    /// Takes the next line of the meter and says what to do with it.
    pub fn on_line(&mut self, line: String) -> (r: ProducerAction)
        requires
            old(self).wf(),
        ensures
            final(self).wf(),
            r matches ProducerAction::Emit(d) ==> d.wf(),
            ({
                let (c, col, out) = frame_step(old(self).collecting(), old(self).collected(), line@);
                &&& final(self).collecting() == c
                &&& final(self).collected() == col
                &&& match out {
                    None => r is Wait,
                    Some(t) => match usage_of(t) {
                        Ok(u) => r matches ProducerAction::Emit(d) && d@ == u,
                        Err(e) => r == ProducerAction::Skip(e),
                    },
                }
            }),
    {
        match self.framer.push_line(line) {
            None => ProducerAction::Wait,
            Some(telegram) => match parse_message(telegram.as_slice()) {
                Ok(d) => ProducerAction::Emit(d),
                Err(e) => ProducerAction::Skip(e),
            },
        }
    }
}

} // verus!
