//! The processor table `/proc/cpuinfo`: sections of `key : value` lines,
//! one section for each logical processor and, on some machines, one for the
//! board.

use crate::error::{DataField, InfoError};
use crate::number::{
    digit_run, fraction_run, is_decimal, is_decimal_literal, parse_u8, parse_unsigned,
};
use crate::text::{
    copy_range, first_line, head, head_of, lines, rows, same_folded, same_ignoring_case,
    sections, split_lines, split_once, split_pair, split_sections, to_chars, to_text, trim,
    trimmed,
};
use vstd::prelude::*;

verus! {

/// Where the processor table is found.
pub const CPUINFO_PATH: &'static str = "/proc/cpuinfo";

// ---------------------------------------------------------------------------
// Models
// ---------------------------------------------------------------------------
/// What a `ProcessorEntry` holds.
pub struct ProcessorView {
    pub processor: u8,
    pub cpu_mhz: Seq<char>,
    pub cpu_cores: u8,
}

/// What an `InformationEntry` holds.
pub struct InformationView {
    pub revision: Seq<char>,
    pub serial: Seq<char>,
    pub model: Seq<char>,
}

/// What a `CpuEntry` holds.
pub enum CpuEntryView {
    Processor(ProcessorView),
    Information(InformationView),
}

/// The key and the value of `line`, each without the white space around it.
/// The key ends at the first colon; a line without a colon has neither.
pub open spec fn key_value(line: Seq<char>) -> Option<(Seq<char>, Seq<char>)> {
    match split_pair(line, ':') {
        Some((key, value)) => Some((trim(key), trim(value))),
        None => None,
    }
}

/// Whether `key`, once trimmed, is the word `processor` in any case of
/// letters.
pub open spec fn is_processor_label(key: Seq<char>) -> bool {
    same_ignoring_case(trim(key), "processor"@)
}

/// Whether `section` describes a processor: whether what stands before the
/// first colon of its first line is the word `processor`.
pub open spec fn is_processor_section(section: Seq<char>) -> bool {
    is_processor_label(head(first_line(section), ':'))
}

impl ProcessorView {
    /// The entry before any line is read.
    pub open spec fn initial() -> ProcessorView {
        ProcessorView { processor: 0, cpu_mhz: seq!['0'], cpu_cores: 0 }
    }

    /// The entry after `line` is read: a line whose key is `processor`,
    /// `cpu mhz` or `cpu cores` sets that value or fails on it, any other line
    /// changes nothing.
    pub open spec fn read(self, line: Seq<char>) -> Result<ProcessorView, DataField> {
        match key_value(line) {
            None => Ok(self),
            Some((key, value)) => {
                if same_ignoring_case(key, "processor"@) {
                    match parse_unsigned(value, u8::MAX as nat) {
                        Some(n) => Ok(ProcessorView { processor: n as u8, ..self }),
                        None => Err(DataField::Processor),
                    }
                } else if same_ignoring_case(key, "cpu mhz"@) {
                    if is_decimal_literal(value) {
                        Ok(ProcessorView { cpu_mhz: value, ..self })
                    } else {
                        Err(DataField::CpuMhz)
                    }
                } else if same_ignoring_case(key, "cpu cores"@) {
                    match parse_unsigned(value, u8::MAX as nat) {
                        Some(n) => Ok(ProcessorView { cpu_cores: n as u8, ..self }),
                        None => Err(DataField::CpuCores),
                    }
                } else {
                    Ok(self)
                }
            },
        }
    }

    /// The entry after all of `ls` are read in order, or the value of the
    /// first line that cannot be read.
    pub open spec fn read_all(ls: Seq<Seq<char>>) -> Result<ProcessorView, DataField>
        decreases ls.len(),
    {
        if ls.len() == 0 {
            Ok(ProcessorView::initial())
        } else {
            match ProcessorView::read_all(ls.drop_last()) {
                Ok(entry) => entry.read(ls.last()),
                Err(field) => Err(field),
            }
        }
    }
}

impl InformationView {
    /// The entry before any line is read.
    pub open spec fn initial() -> InformationView {
        InformationView { revision: Seq::empty(), serial: Seq::empty(), model: Seq::empty() }
    }

    /// The entry after `line` is read: a line whose key is `revision`,
    /// `serial` or `model` sets that value, any other line changes nothing.
    pub open spec fn read(self, line: Seq<char>) -> InformationView {
        match key_value(line) {
            None => self,
            Some((key, value)) => {
                if same_ignoring_case(key, "revision"@) {
                    InformationView { revision: value, ..self }
                } else if same_ignoring_case(key, "serial"@) {
                    InformationView { serial: value, ..self }
                } else if same_ignoring_case(key, "model"@) {
                    InformationView { model: value, ..self }
                } else {
                    self
                }
            },
        }
    }

    /// The entry after all of `ls` are read in order.
    pub open spec fn read_all(ls: Seq<Seq<char>>) -> InformationView
        decreases ls.len(),
    {
        if ls.len() == 0 {
            InformationView::initial()
        } else {
            InformationView::read_all(ls.drop_last()).read(ls.last())
        }
    }
}

/// The entry that `section` describes, or the value in it that cannot be read.
pub open spec fn entry_of(section: Seq<char>) -> Result<CpuEntryView, DataField> {
    if is_processor_section(section) {
        match ProcessorView::read_all(lines(section)) {
            Ok(entry) => Ok(CpuEntryView::Processor(entry)),
            Err(field) => Err(field),
        }
    } else {
        Ok(CpuEntryView::Information(InformationView::read_all(lines(section))))
    }
}

/// Those of `ss` that are not empty, in their order.
pub open spec fn non_empty(ss: Seq<Seq<char>>) -> Seq<Seq<char>>
    decreases ss.len(),
{
    if ss.len() == 0 {
        Seq::empty()
    } else if ss.last().len() > 0 {
        non_empty(ss.drop_last()).push(ss.last())
    } else {
        non_empty(ss.drop_last())
    }
}

/// The records of a processor table: its sections that are not empty.
pub open spec fn records(text: Seq<char>) -> Seq<Seq<char>> {
    non_empty(sections(text))
}

/// The entries that `rs` describe, in their order, or the first failure: the
/// index of the first record that holds a value that cannot be read, and that
/// value.
pub open spec fn entries_of(rs: Seq<Seq<char>>) -> Result<Seq<CpuEntryView>, InfoError>
    decreases rs.len(),
{
    if rs.len() == 0 {
        Ok(Seq::empty())
    } else {
        match entries_of(rs.drop_last()) {
            Err(e) => Err(e),
            Ok(entries) => match entry_of(rs.last()) {
                Ok(entry) => Ok(entries.push(entry)),
                Err(field) => Err(
                    InfoError::MalformedData { section: (rs.len() - 1) as usize, field },
                ),
            },
        }
    }
}

/// What reading a processor table gives: `NotFound` where there is no table,
/// else the entries of its records.
pub open spec fn cpuinfo_of(contents: Option<Seq<char>>) -> Result<Seq<CpuEntryView>, InfoError> {
    match contents {
        None => Err(InfoError::NotFound),
        Some(text) => entries_of(records(text)),
    }
}

/// The number of entries before the first processor entry.
pub open spec fn first_processor(entries: Seq<CpuEntryView>) -> nat
    decreases entries.len(),
{
    if entries.len() == 0 {
        0
    } else if entries[0] is Processor {
        0
    } else {
        1 + first_processor(entries.drop_first())
    }
}

/// The core count of the first processor entry, or 0 where there is none.
pub open spec fn cores_of(entries: Seq<CpuEntryView>) -> u8 {
    let i = first_processor(entries) as int;
    if i < entries.len() {
        entries[i]->Processor_0.cpu_cores
    } else {
        0
    }
}

// ---------------------------------------------------------------------------
// Facts
// ---------------------------------------------------------------------------
/// The clock rate of an entry that has read no line is a decimal literal.
pub proof fn lemma_initial_clock()
    ensures
        is_decimal_literal(ProcessorView::initial().cpu_mhz),
{
    let s = seq!['0'];
    assert(s.drop_first() =~= Seq::<char>::empty());
    assert(digit_run(s.drop_first()) == 0);
    assert(digit_run(s) == 1);
    assert(s.skip(1) =~= Seq::<char>::empty());
    assert(fraction_run(s.skip(1)) == 0);
}

/// Once a line cannot be read, the lines after it change nothing.
pub proof fn lemma_failure_stays(ls: Seq<Seq<char>>, k: int)
    requires
        0 <= k <= ls.len(),
        ProcessorView::read_all(ls.take(k)) is Err,
    ensures
        ProcessorView::read_all(ls) == ProcessorView::read_all(ls.take(k)),
    decreases ls.len() - k,
{
    if k == ls.len() {
        assert(ls.take(k) =~= ls);
    } else {
        assert(ls.drop_last().take(k) =~= ls.take(k));
        lemma_failure_stays(ls.drop_last(), k);
    }
}

/// Once a record cannot be read, the records after it change nothing.
pub proof fn lemma_first_failure_stays(rs: Seq<Seq<char>>, k: int)
    requires
        0 <= k <= rs.len(),
        entries_of(rs.take(k)) is Err,
    ensures
        entries_of(rs) == entries_of(rs.take(k)),
    decreases rs.len() - k,
{
    if k == rs.len() {
        assert(rs.take(k) =~= rs);
    } else {
        assert(rs.drop_last().take(k) =~= rs.take(k));
        lemma_first_failure_stays(rs.drop_last(), k);
    }
}

/// A table is read into one entry for each record, in the order of the
/// records; or it fails on its first record that cannot be read, with the
/// index of that record.
pub proof fn lemma_entries_follow_records(rs: Seq<Seq<char>>)
    ensures
        match entries_of(rs) {
            Ok(entries) => {
                &&& entries.len() == rs.len()
                &&& forall|i: int|
                    0 <= i < rs.len() ==> entry_of(#[trigger] rs[i]) == Ok::<
                        CpuEntryView,
                        DataField,
                    >(entries[i])
            },
            Err(e) => exists|i: int|
                {
                    &&& 0 <= i < rs.len()
                    &&& e == InfoError::MalformedData {
                        section: i as usize,
                        field: entry_of(#[trigger] rs[i])->Err_0,
                    }
                    &&& entry_of(rs[i]) is Err
                    &&& forall|j: int| 0 <= j < i ==> entry_of(#[trigger] rs[j]) is Ok
                },
        },
    decreases rs.len(),
{
    if rs.len() > 0 {
        let front = rs.drop_last();
        lemma_entries_follow_records(front);
        match entries_of(front) {
            Ok(entries) => {
                match entry_of(rs.last()) {
                    Ok(entry) => {
                        let all = entries.push(entry);
                        assert forall|i: int| 0 <= i < rs.len() implies entry_of(
                            #[trigger] rs[i],
                        ) == Ok::<CpuEntryView, DataField>(all[i]) by {
                            if i < front.len() {
                                assert(rs[i] == front[i]);
                            }
                        }
                    },
                    Err(field) => {
                        let i = rs.len() - 1;
                        assert forall|j: int| 0 <= j < i implies entry_of(#[trigger] rs[j]) is Ok by {
                            assert(rs[j] == front[j]);
                        }
                        assert(entry_of(rs[i]) is Err);
                    },
                }
            },
            Err(e) => {
                let i = choose|i: int|
                    {
                        &&& 0 <= i < front.len()
                        &&& e == InfoError::MalformedData {
                            section: i as usize,
                            field: entry_of(#[trigger] front[i])->Err_0,
                        }
                        &&& entry_of(front[i]) is Err
                        &&& forall|j: int| 0 <= j < i ==> entry_of(#[trigger] front[j]) is Ok
                    };
                assert(rs[i] == front[i]);
                assert forall|j: int| 0 <= j < i implies entry_of(#[trigger] rs[j]) is Ok by {
                    assert(rs[j] == front[j]);
                }
            },
        }
    }
}

/// `first_processor(entries)` is the index of the first processor entry, or
/// `entries.len()` where all are information entries.
pub proof fn lemma_first_processor(entries: Seq<CpuEntryView>)
    ensures
        first_processor(entries) <= entries.len(),
        first_processor(entries) < entries.len() ==> entries[first_processor(
            entries,
        ) as int] is Processor,
        forall|j: int| 0 <= j < first_processor(entries) ==> #[trigger] entries[j] is Information,
    decreases entries.len(),
{
    if entries.len() > 0 && !(entries[0] is Processor) {
        let rest = entries.drop_first();
        lemma_first_processor(rest);
        assert forall|j: int| 0 <= j < first_processor(entries) implies #[trigger] entries[j]
            is Information by {
            if j > 0 {
                assert(entries[j] == rest[j - 1]);
            }
        }
    }
}

/// Whatever the order of the entries, the core count of a table is that of
/// its first processor entry, and 0 where it has none.
pub proof fn lemma_cores_of_first_processor(entries: Seq<CpuEntryView>, i: int)
    requires
        0 <= i <= entries.len(),
        forall|j: int| 0 <= j < i ==> #[trigger] entries[j] is Information,
        i < entries.len() ==> entries[i] is Processor,
    ensures
        cores_of(entries) == if i < entries.len() {
            entries[i]->Processor_0.cpu_cores
        } else {
            0
        },
{
    lemma_first_processor(entries);
    let k = first_processor(entries) as int;
    if k < i {
        assert(entries[k] is Information);
    } else if i < k {
        assert(entries[i] is Information);
    }
}

// ---------------------------------------------------------------------------
// Entries
// ---------------------------------------------------------------------------
/// One logical processor of the table. The clock rate is kept as the decimal
/// literal that the table holds.
#[derive(Debug)]
pub struct ProcessorEntry {
    processor: u8,
    cpu_mhz: String,
    cpu_cores: u8,
}

impl View for ProcessorEntry {
    type V = ProcessorView;

    closed spec fn view(&self) -> ProcessorView {
        ProcessorView {
            processor: self.processor,
            cpu_mhz: self.cpu_mhz@,
            cpu_cores: self.cpu_cores,
        }
    }
}

impl Clone for ProcessorEntry {
    fn clone(&self) -> (r: Self)
        ensures
            r@ == self@,
    {
        proof {
            use_type_invariant(self);
        }
        ProcessorEntry {
            processor: self.processor,
            cpu_mhz: self.cpu_mhz.clone(),
            cpu_cores: self.cpu_cores,
        }
    }
}

impl ProcessorEntry {
    #[verifier::type_invariant]
    spec fn well_formed(self) -> bool {
        is_decimal_literal(self.cpu_mhz@)
    }

    /// Reads the lines of a section.
    pub(crate) fn from_lines(ls: &Vec<Vec<char>>) -> (r: Result<ProcessorEntry, DataField>)
        ensures
            match r {
                Ok(entry) => ProcessorView::read_all(rows(ls@)) == Ok::<ProcessorView, DataField>(
                    entry@,
                ),
                Err(field) => ProcessorView::read_all(rows(ls@)) == Err::<
                    ProcessorView,
                    DataField,
                >(field),
            },
    {
        let mut processor: u8 = 0;
        let mut cpu_mhz: Vec<char> = Vec::new();
        cpu_mhz.push('0');
        let mut cpu_cores: u8 = 0;
        let ghost all = rows(ls@);
        proof {
            lemma_initial_clock();
            assert(cpu_mhz@ =~= seq!['0']);
            assert(all.take(0) =~= Seq::<Seq<char>>::empty());
        }
        let mut i: usize = 0;
        while i < ls.len()
            invariant
                i <= ls@.len(),
                all == rows(ls@),
                is_decimal_literal(cpu_mhz@),
                ProcessorView::read_all(all.take(i as int)) == Ok::<ProcessorView, DataField>(
                    ProcessorView { processor, cpu_mhz: cpu_mhz@, cpu_cores },
                ),
            decreases ls@.len() - i,
        {
            let ghost before = ProcessorView { processor, cpu_mhz: cpu_mhz@, cpu_cores };
            proof {
                assert(all.take(i + 1).drop_last() =~= all.take(i as int));
                assert(all.take(i + 1).last() == ls@[i as int]@);
                assert(ProcessorView::read_all(all.take(i + 1)) == before.read(ls@[i as int]@));
            }
            let mut failure: Option<DataField> = None;
            match split_once(&ls[i], ':') {
                Some((key, value)) => {
                    let key = trimmed(&key);
                    let value = trimmed(&value);
                    if same_folded(&key, "processor") {
                        match parse_u8(&value) {
                            Some(n) => {
                                processor = n;
                            },
                            None => {
                                failure = Some(DataField::Processor);
                            },
                        }
                    } else if same_folded(&key, "cpu mhz") {
                        if is_decimal(&value) {
                            cpu_mhz = value;
                        } else {
                            failure = Some(DataField::CpuMhz);
                        }
                    } else if same_folded(&key, "cpu cores") {
                        match parse_u8(&value) {
                            Some(n) => {
                                cpu_cores = n;
                            },
                            None => {
                                failure = Some(DataField::CpuCores);
                            },
                        }
                    }
                },
                None => {},
            }
            if let Some(field) = failure {
                proof {
                    lemma_failure_stays(all, i + 1);
                }
                return Err(field);
            }
            i += 1;
        }
        assert(all.take(ls@.len() as int) =~= all);
        Ok(ProcessorEntry { processor, cpu_mhz: to_text(&cpu_mhz), cpu_cores })
    }

    /// Reads a section of the table as a processor entry. A value that cannot
    /// be read is reported with the section index 0.
    pub fn parse(section: String) -> (r: Result<ProcessorEntry, InfoError>)
        ensures
            match r {
                Ok(entry) => ProcessorView::read_all(lines(section@)) == Ok::<
                    ProcessorView,
                    DataField,
                >(entry@),
                Err(e) => ProcessorView::read_all(lines(section@)) == Err::<
                    ProcessorView,
                    DataField,
                >(e->field) && e == (InfoError::MalformedData { section: 0, field: e->field }),
            },
    {
        let chars = to_chars(section.as_str());
        let ls = split_lines(&chars);
        match ProcessorEntry::from_lines(&ls) {
            Ok(entry) => Ok(entry),
            Err(field) => Err(InfoError::MalformedData { section: 0, field }),
        }
    }

    /// The index of the processor.
    pub fn processor(&self) -> (r: &u8)
        ensures
            *r == self@.processor,
    {
        &self.processor
    }

    /// The clock rate in MHz, as the decimal literal that the table holds.
    pub fn cpu_mhz(&self) -> (r: &String)
        ensures
            r@ == self@.cpu_mhz,
            is_decimal_literal(r@),
    {
        proof {
            use_type_invariant(self);
        }
        &self.cpu_mhz
    }

    /// The number of cores of the package that the processor belongs to.
    pub fn cpu_cores(&self) -> (r: &u8)
        ensures
            *r == self@.cpu_cores,
    {
        &self.cpu_cores
    }
}

/// What the table says about the board.
#[derive(Clone, Debug)]
pub struct InformationEntry {
    revision: String,
    serial: String,
    model: String,
}

impl View for InformationEntry {
    type V = InformationView;

    closed spec fn view(&self) -> InformationView {
        InformationView { revision: self.revision@, serial: self.serial@, model: self.model@ }
    }
}

impl InformationEntry {
    /// Reads the lines of a section.
    pub(crate) fn from_lines(ls: &Vec<Vec<char>>) -> (r: InformationEntry)
        ensures
            r@ == InformationView::read_all(rows(ls@)),
    {
        let mut revision: Vec<char> = Vec::new();
        let mut serial: Vec<char> = Vec::new();
        let mut model: Vec<char> = Vec::new();
        let ghost all = rows(ls@);
        assert(all.take(0) =~= Seq::<Seq<char>>::empty());
        let mut i: usize = 0;
        while i < ls.len()
            invariant
                i <= ls@.len(),
                all == rows(ls@),
                InformationView::read_all(all.take(i as int)) == (InformationView {
                    revision: revision@,
                    serial: serial@,
                    model: model@,
                }),
            decreases ls@.len() - i,
        {
            proof {
                assert(all.take(i + 1).drop_last() =~= all.take(i as int));
                assert(all.take(i + 1).last() == ls@[i as int]@);
            }
            match split_once(&ls[i], ':') {
                Some((key, value)) => {
                    let key = trimmed(&key);
                    let value = trimmed(&value);
                    if same_folded(&key, "revision") {
                        revision = value;
                    } else if same_folded(&key, "serial") {
                        serial = value;
                    } else if same_folded(&key, "model") {
                        model = value;
                    }
                },
                None => {},
            }
            i += 1;
        }
        assert(all.take(ls@.len() as int) =~= all);
        InformationEntry {
            revision: to_text(&revision),
            serial: to_text(&serial),
            model: to_text(&model),
        }
    }

    /// Reads a section of the table as an information entry.
    pub fn parse(section: String) -> (r: InformationEntry)
        ensures
            r@ == InformationView::read_all(lines(section@)),
    {
        let chars = to_chars(section.as_str());
        let ls = split_lines(&chars);
        InformationEntry::from_lines(&ls)
    }

    /// The revision of the board.
    pub fn revision(&self) -> (r: &String)
        ensures
            r@ == self@.revision,
    {
        &self.revision
    }

    /// The serial number of the board.
    pub fn serial(&self) -> (r: &String)
        ensures
            r@ == self@.serial,
    {
        &self.serial
    }

    /// The model of the board.
    pub fn model(&self) -> (r: &String)
        ensures
            r@ == self@.model,
    {
        &self.model
    }
}

/// One record of the table.
#[derive(Clone, Debug)]
pub enum CpuEntry {
    Processor(ProcessorEntry),
    Information(InformationEntry),
}

impl View for CpuEntry {
    type V = CpuEntryView;

    open spec fn view(&self) -> CpuEntryView {
        match self {
            CpuEntry::Processor(entry) => CpuEntryView::Processor(entry@),
            CpuEntry::Information(entry) => CpuEntryView::Information(entry@),
        }
    }
}

impl CpuEntry {
    /// Whether a section that starts with `key` describes a processor.
    pub fn is_processor_key(key: &str) -> (r: bool)
        ensures
            r == is_processor_label(key@),
    {
        let chars = to_chars(key);
        same_folded(&trimmed(&chars), "processor")
    }

    /// Reads a section given as characters.
    pub(crate) fn from_chars(section: &Vec<char>) -> (r: Result<CpuEntry, DataField>)
        ensures
            match r {
                Ok(entry) => entry_of(section@) == Ok::<CpuEntryView, DataField>(entry@),
                Err(field) => entry_of(section@) == Err::<CpuEntryView, DataField>(field),
            },
    {
        let ls = split_lines(section);
        let leading = if ls.len() > 0 {
            head_of(&ls[0], ':')
        } else {
            let empty: Vec<char> = Vec::new();
            assert(head(Seq::<char>::empty(), ':') =~= empty@);
            empty
        };
        assert(leading@ == head(first_line(section@), ':'));
        if same_folded(&trimmed(&leading), "processor") {
            match ProcessorEntry::from_lines(&ls) {
                Ok(entry) => Ok(CpuEntry::Processor(entry)),
                Err(field) => Err(field),
            }
        } else {
            Ok(CpuEntry::Information(InformationEntry::from_lines(&ls)))
        }
    }

    /// Reads a section of the table: as a processor entry where its first key
    /// is `processor`, as an information entry otherwise. A value that cannot
    /// be read is reported with the section index 0.
    pub fn parse(section: String) -> (r: Result<CpuEntry, InfoError>)
        ensures
            match r {
                Ok(entry) => entry_of(section@) == Ok::<CpuEntryView, DataField>(entry@),
                Err(e) => entry_of(section@) == Err::<CpuEntryView, DataField>(e->field) && e == (
                InfoError::MalformedData { section: 0, field: e->field }),
            },
    {
        let chars = to_chars(section.as_str());
        match CpuEntry::from_chars(&chars) {
            Ok(entry) => Ok(entry),
            Err(field) => Err(InfoError::MalformedData { section: 0, field }),
        }
    }
}

/// The processor table: its entries in the order of the file.
#[derive(Clone, Debug)]
pub struct Cpuinfo {
    entries: Vec<CpuEntry>,
}

impl View for Cpuinfo {
    type V = Seq<CpuEntryView>;

    closed spec fn view(&self) -> Seq<CpuEntryView> {
        Seq::new(self.entries@.len(), |i: int| self.entries@[i]@)
    }
}

/// What `r` holds, as a model.
pub open spec fn outcome(r: Result<Cpuinfo, InfoError>) -> Result<Seq<CpuEntryView>, InfoError> {
    match r {
        Ok(info) => Ok(info@),
        Err(e) => Err(e),
    }
}

/// The sections of `text` that are not empty.
pub fn split_records(text: &Vec<char>) -> (out: Vec<Vec<char>>)
    ensures
        rows(out@) == records(text@),
{
    let all = split_sections(text);
    let mut out: Vec<Vec<char>> = Vec::new();
    let ghost ss = rows(all@);
    assert(ss.take(0) =~= Seq::<Seq<char>>::empty());
    assert(rows(out@) =~= Seq::<Seq<char>>::empty());
    let mut i: usize = 0;
    while i < all.len()
        invariant
            i <= all@.len(),
            ss == rows(all@),
            rows(out@) == non_empty(ss.take(i as int)),
        decreases all@.len() - i,
    {
        proof {
            assert(ss.take(i + 1).drop_last() =~= ss.take(i as int));
            assert(ss.take(i + 1).last() == all@[i as int]@);
        }
        if all[i].len() > 0 {
            let section = copy_range(&all[i], 0, all[i].len());
            assert(section@ =~= all@[i as int]@);
            assert(rows(out@.push(section)) =~= rows(out@).push(section@));
            out.push(section);
        }
        i += 1;
    }
    assert(ss.take(all@.len() as int) =~= ss);
    out
}

impl Cpuinfo {
    /// Reads the text of a processor table: one entry for each section that is
    /// not empty, in the order of the text. The first value that cannot be read
    /// fails the whole table, and the failure names the record and the value.
    pub fn parse_text(text: &str) -> (r: Result<Cpuinfo, InfoError>)
        ensures
            outcome(r) == entries_of(records(text@)),
            r matches Err(e) ==> e is MalformedData,
            r matches Ok(info) ==> {
                &&& info@.len() == records(text@).len()
                &&& forall|i: int|
                    0 <= i < info@.len() ==> entry_of(#[trigger] records(text@)[i]) == Ok::<
                        CpuEntryView,
                        DataField,
                    >(info@[i])
            },
    {
        let chars = to_chars(text);
        let rs = split_records(&chars);
        let ghost all = rows(rs@);
        let mut entries: Vec<CpuEntry> = Vec::new();
        let mut i: usize = 0;
        assert(all.take(0) =~= Seq::<Seq<char>>::empty());
        assert(Seq::new(entries@.len(), |k: int| entries@[k]@) =~= Seq::<CpuEntryView>::empty());
        while i < rs.len()
            invariant
                i <= rs@.len(),
                all == rows(rs@),
                all == records(text@),
                entries@.len() == i,
                entries_of(all.take(i as int)) == Ok::<Seq<CpuEntryView>, InfoError>(
                    Seq::new(entries@.len(), |k: int| entries@[k]@),
                ),
            decreases rs@.len() - i,
        {
            proof {
                assert(all.take(i + 1).drop_last() =~= all.take(i as int));
                assert(all.take(i + 1).last() == rs@[i as int]@);
            }
            match CpuEntry::from_chars(&rs[i]) {
                Ok(entry) => {
                    assert(Seq::new(entries@.push(entry).len(), |k: int| entries@.push(entry)[k]@)
                        =~= Seq::new(entries@.len(), |k: int| entries@[k]@).push(entry@));
                    entries.push(entry);
                },
                Err(field) => {
                    proof {
                        assert(entries_of(all.take(i + 1)) == Err::<Seq<CpuEntryView>, InfoError>(
                            InfoError::MalformedData { section: i, field },
                        ));
                        lemma_first_failure_stays(all, i + 1);
                    }
                    return Err(InfoError::MalformedData { section: i, field });
                },
            }
            i += 1;
        }
        proof {
            assert(all.take(rs@.len() as int) =~= all);
            lemma_entries_follow_records(all);
        }
        Ok(Cpuinfo { entries })
    }

    /// Reads a processor table from what was found at `CPUINFO_PATH`: `None`
    /// where the file is not there, which is the failure `NotFound`, never an
    /// empty table.
    pub fn parse(contents: Option<&str>) -> (r: Result<Cpuinfo, InfoError>)
        ensures
            outcome(r) == cpuinfo_of(
                match contents {
                    Some(text) => Some(text@),
                    None => None,
                },
            ),
            contents is None <==> r == Err::<Cpuinfo, InfoError>(InfoError::NotFound),
    {
        match contents {
            Some(text) => Cpuinfo::parse_text(text),
            None => Err(InfoError::NotFound),
        }
    }

    /// The entries of the table, in the order of the file.
    pub fn entries(&self) -> (r: &Vec<CpuEntry>)
        ensures
            r@.len() == self@.len(),
            forall|i: int| 0 <= i < r@.len() ==> (#[trigger] r@[i])@ == self@[i],
    {
        &self.entries
    }

    /// The core count of the first processor entry, or 0 where the table has
    /// no processor entry.
    pub fn cores(&self) -> (r: &u8)
        ensures
            *r == cores_of(self@),
    {
        let mut i: usize = 0;
        assert(self@.skip(0) =~= self@);
        while i < self.entries.len()
            invariant
                i <= self.entries@.len(),
                self@.len() == self.entries@.len(),
                first_processor(self@) == i + first_processor(self@.skip(i as int)),
            decreases self.entries@.len() - i,
        {
            assert(self@.skip(i as int).drop_first() =~= self@.skip(i + 1));
            assert(self@.skip(i as int)[0] == self.entries@[i as int]@);
            match &self.entries[i] {
                CpuEntry::Processor(p) => {
                    return p.cpu_cores();
                },
                CpuEntry::Information(_) => {},
            }
            i += 1;
        }
        &0
    }
}

} // verus!
