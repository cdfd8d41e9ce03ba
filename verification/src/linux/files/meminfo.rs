//! The memory table `/proc/meminfo`: lines of `Key: value unit`.

use crate::error::InfoError;
use crate::text::{
    lines, rows, same, split_lines, split_once, split_pair, text_of, to_chars, to_text, trim,
    trimmed,
};
use vstd::prelude::*;

verus! {

/// Where the memory table is found.
pub const MEMINFO_PATH: &'static str = "/proc/meminfo";

/// What a `Meminfo` holds.
pub struct MeminfoView {
    pub mem_total: Seq<char>,
    pub swap_total: Seq<char>,
}

impl MeminfoView {
    /// The table before any line is read.
    pub open spec fn initial() -> MeminfoView {
        MeminfoView { mem_total: Seq::empty(), swap_total: Seq::empty() }
    }

    /// The table after `line` is read. The line is split at its first colon:
    /// the key `MemTotal` or `SwapTotal` sets that value, which is kept with
    /// its unit and without the white space around it. Any other line changes
    /// nothing.
    pub open spec fn read(self, line: Seq<char>) -> MeminfoView {
        match split_pair(line, ':') {
            Some((key, value)) => {
                if key == "MemTotal"@ {
                    MeminfoView { mem_total: trim(value), ..self }
                } else if key == "SwapTotal"@ {
                    MeminfoView { swap_total: trim(value), ..self }
                } else {
                    self
                }
            },
            None => self,
        }
    }

    /// The table after all of `ls` are read in order.
    pub open spec fn read_all(ls: Seq<Seq<char>>) -> MeminfoView
        decreases ls.len(),
    {
        if ls.len() == 0 {
            MeminfoView::initial()
        } else {
            MeminfoView::read_all(ls.drop_last()).read(ls.last())
        }
    }
}

/// What reading a memory table gives: `NotFound` where there is no table.
pub open spec fn meminfo_of(contents: Option<Seq<char>>) -> Result<MeminfoView, InfoError> {
    match contents {
        Some(text) => Ok(MeminfoView::read_all(lines(text))),
        None => Err(InfoError::NotFound),
    }
}

/// The totals of the memory table, each as the text that the table holds: a
/// number and its unit.
#[derive(Clone, Debug)]
pub struct Meminfo {
    mem_total: String,
    swap_total: String,
}

impl View for Meminfo {
    type V = MeminfoView;

    closed spec fn view(&self) -> MeminfoView {
        MeminfoView { mem_total: self.mem_total@, swap_total: self.swap_total@ }
    }
}

/// What `r` holds, as a model.
pub open spec fn outcome(r: Result<Meminfo, InfoError>) -> Result<MeminfoView, InfoError> {
    match r {
        Ok(info) => Ok(info@),
        Err(e) => Err(e),
    }
}

impl Meminfo {
    /// Reads the text of a memory table.
    pub fn parse_text(text: &str) -> (r: Meminfo)
        ensures
            r@ == MeminfoView::read_all(lines(text@)),
    {
        let chars = to_chars(text);
        let ls = split_lines(&chars);
        let ghost all = rows(ls@);
        let mut mem_total: Vec<char> = Vec::new();
        let mut swap_total: Vec<char> = Vec::new();
        assert(all.take(0) =~= Seq::<Seq<char>>::empty());
        let mut i: usize = 0;
        while i < ls.len()
            invariant
                i <= ls@.len(),
                all == rows(ls@),
                MeminfoView::read_all(all.take(i as int)) == (MeminfoView {
                    mem_total: mem_total@,
                    swap_total: swap_total@,
                }),
            decreases ls@.len() - i,
        {
            proof {
                assert(all.take(i + 1).drop_last() =~= all.take(i as int));
                assert(all.take(i + 1).last() == ls@[i as int]@);
            }
            match split_once(&ls[i], ':') {
                Some((key, value)) => {
                    if same(&key, "MemTotal") {
                        mem_total = trimmed(&value);
                    } else if same(&key, "SwapTotal") {
                        swap_total = trimmed(&value);
                    }
                },
                None => {},
            }
            i += 1;
        }
        assert(all.take(ls@.len() as int) =~= all);
        Meminfo { mem_total: to_text(&mem_total), swap_total: to_text(&swap_total) }
    }

    /// Reads a memory table from what was found at `MEMINFO_PATH`: `None`
    /// where the file is not there, which is the failure `NotFound`.
    pub fn parse(contents: Option<&str>) -> (r: Result<Meminfo, InfoError>)
        ensures
            outcome(r) == meminfo_of(text_of(contents)),
            r is Err <==> contents is None,
    {
        match contents {
            Some(text) => Ok(Meminfo::parse_text(text)),
            None => Err(InfoError::NotFound),
        }
    }

    /// The total of usable memory.
    pub fn mem_total(&self) -> (r: &String)
        ensures
            r@ == self@.mem_total,
    {
        &self.mem_total
    }

    /// The total of swap space.
    pub fn swap_total(&self) -> (r: &String)
        ensures
            r@ == self@.swap_total,
    {
        &self.swap_total
    }
}

} // verus!
