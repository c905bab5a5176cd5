//! The placeholder accumulator.
//!
//! A word processor may split one placeholder across several adjacent text
//! runs.  This state machine swallows text fragments one by one and decides,
//! from the grammar alone, when a coalesced piece of text is complete.

use crate::grammar::{
    chars_of, contains_bare_block_open, contains_block_close_marker, contains_block_open_marker,
    contains_char, contains_close, contains_helper_marker, contains_open, contains_simple_marker,
    count_block_from, count_block_marks, count_double, count_double_from, find_bare_block_open,
    find_char, find_double, scan_markers,
};
use vstd::prelude::*;
use vstd::string::StringExecFns;

verus! {

/// What kind of placeholder the accumulator believes it is inside.
#[derive(Debug, Clone, Copy, PartialEq, Eq, Structural)]
pub enum AccumulationMode {
    /// A bare opening brace was seen; the direction is unknown yet.
    Uncertain,
    /// Inside a simple bracket pair.
    Simple,
    /// Inside nested block markers, holding the open-minus-close count.
    Multiline { depth: usize },
}

/// The accumulator's state: idle, gathering fragments, or done with a
/// coalesced piece of text.
#[derive(Debug)]
pub enum TemplateAccumulator {
    Idle,
    Accumulating { acc: String, acc_state: AccumulationMode },
    Done(String),
}

/// Mathematical picture of a [`TemplateAccumulator`].
pub enum AccumulatorModel {
    Idle,
    Accumulating { acc: Seq<char>, acc_state: AccumulationMode },
    Done(Seq<char>),
}

impl DeepView for TemplateAccumulator {
    type V = AccumulatorModel;

    open spec fn deep_view(&self) -> AccumulatorModel {
        match self {
            TemplateAccumulator::Idle => AccumulatorModel::Idle,
            TemplateAccumulator::Accumulating { acc, acc_state } => {
                AccumulatorModel::Accumulating { acc: acc@, acc_state: *acc_state }
            },
            TemplateAccumulator::Done(s) => AccumulatorModel::Done(s@),
        }
    }
}

/// The transition function of the accumulator, one fragment at a time.
pub open spec fn fsm_step(st: AccumulatorModel, text: Seq<char>) -> AccumulatorModel {
    match st {
        AccumulatorModel::Idle => {
            if contains_block_open_marker(text) {
                AccumulatorModel::Accumulating {
                    acc: text,
                    acc_state: AccumulationMode::Multiline { depth: 0 },
                }
            } else if contains_block_close_marker(text) || contains_simple_marker(text)
                || contains_helper_marker(text) {
                AccumulatorModel::Done(text)
            } else if contains_char(text, '{') {
                AccumulatorModel::Accumulating { acc: text, acc_state: AccumulationMode::Uncertain }
            } else {
                AccumulatorModel::Done(text)
            }
        },
        AccumulatorModel::Accumulating { acc, acc_state: AccumulationMode::Multiline { .. } } => {
            let buf = acc + text;
            let opens = count_block_from(buf, '#', 0);
            let closes = count_block_from(buf, '/', 0);
            if opens > closes {
                AccumulatorModel::Accumulating {
                    acc: buf,
                    acc_state: AccumulationMode::Multiline { depth: (opens - closes) as usize },
                }
            } else {
                AccumulatorModel::Done(buf)
            }
        },
        AccumulatorModel::Accumulating { acc, acc_state: AccumulationMode::Simple } => {
            let buf = acc + text;
            if contains_close(buf) && count_double_from(buf, '{', 0) == count_double_from(
                buf,
                '}',
                0,
            ) {
                AccumulatorModel::Done(buf)
            } else {
                AccumulatorModel::Accumulating { acc: buf, acc_state: AccumulationMode::Simple }
            }
        },
        AccumulatorModel::Accumulating { acc, acc_state: AccumulationMode::Uncertain } => {
            let buf = acc + text;
            if contains_block_open_marker(buf) && contains_block_close_marker(buf) {
                AccumulatorModel::Done(buf)
            } else if contains_bare_block_open(buf) {
                AccumulatorModel::Accumulating {
                    acc: buf,
                    acc_state: AccumulationMode::Multiline { depth: 0 },
                }
            } else if contains_simple_marker(buf) || contains_helper_marker(buf) {
                AccumulatorModel::Done(buf)
            } else if contains_open(buf) {
                AccumulatorModel::Accumulating { acc: buf, acc_state: AccumulationMode::Simple }
            } else {
                AccumulatorModel::Done(buf)
            }
        },
        AccumulatorModel::Done(s) => AccumulatorModel::Done(s),
    }
}

impl TemplateAccumulator {
    /// Feed one text fragment to the machine.
    pub fn accumulate(&mut self, text: &str)
        ensures
            final (self).deep_view() == fsm_step(old(self).deep_view(), text@),
    {
        let next = match &*self {
            TemplateAccumulator::Idle => {
                let v = chars_of(text);
                let marks = scan_markers(&v);
                if marks.2 {
                    TemplateAccumulator::Accumulating {
                        acc: text.to_owned(),
                        acc_state: AccumulationMode::Multiline { depth: 0 },
                    }
                } else if marks.3 || marks.0 || marks.1 {
                    TemplateAccumulator::Done(text.to_owned())
                } else if find_char(&v, '{') {
                    TemplateAccumulator::Accumulating {
                        acc: text.to_owned(),
                        acc_state: AccumulationMode::Uncertain,
                    }
                } else {
                    TemplateAccumulator::Done(text.to_owned())
                }
            },
            TemplateAccumulator::Accumulating {
                acc,
                acc_state: AccumulationMode::Multiline { .. },
            } => {
                let mut buf = acc.clone();
                buf.append(text);
                let v = chars_of(buf.as_str());
                let opens = count_block_marks(&v, '#');
                let closes = count_block_marks(&v, '/');
                if opens > closes {
                    TemplateAccumulator::Accumulating {
                        acc: buf,
                        acc_state: AccumulationMode::Multiline { depth: opens - closes },
                    }
                } else {
                    TemplateAccumulator::Done(buf)
                }
            },
            TemplateAccumulator::Accumulating { acc, acc_state: AccumulationMode::Simple } => {
                let mut buf = acc.clone();
                buf.append(text);
                let v = chars_of(buf.as_str());
                if find_double(&v, '}') && count_double(&v, '{') == count_double(&v, '}') {
                    TemplateAccumulator::Done(buf)
                } else {
                    TemplateAccumulator::Accumulating {
                        acc: buf,
                        acc_state: AccumulationMode::Simple,
                    }
                }
            },
            TemplateAccumulator::Accumulating { acc, acc_state: AccumulationMode::Uncertain } => {
                let mut buf = acc.clone();
                buf.append(text);
                let v = chars_of(buf.as_str());
                let marks = scan_markers(&v);
                if marks.2 && marks.3 {
                    TemplateAccumulator::Done(buf)
                } else if find_bare_block_open(&v) {
                    TemplateAccumulator::Accumulating {
                        acc: buf,
                        acc_state: AccumulationMode::Multiline { depth: 0 },
                    }
                } else if marks.0 || marks.1 {
                    TemplateAccumulator::Done(buf)
                } else if find_double(&v, '{') {
                    TemplateAccumulator::Accumulating {
                        acc: buf,
                        acc_state: AccumulationMode::Simple,
                    }
                } else {
                    TemplateAccumulator::Done(buf)
                }
            },
            TemplateAccumulator::Done(s) => TemplateAccumulator::Done(s.clone()),
        };
        *self = next;
    }

    /// Put the machine back to its idle state.
    pub fn reset(&mut self)
        ensures
            final (self).deep_view() == AccumulatorModel::Idle,
    {
        *self = TemplateAccumulator::Idle;
    }
}

} // verus!
