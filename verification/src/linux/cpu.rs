//! The frequency range of a processor and the hardware vulnerabilities that
//! the kernel reports.

use crate::error::{DataField, InfoError};
use crate::number::{decimal_digits, parse_u64, parse_unsigned, write_u8};
use crate::text::{
    same, starts_with, strip_prefix, text_of, to_chars, to_text, trim, trimmed,
};
use vstd::prelude::*;
use vstd::string::StringExecFns;

verus! {

/// The directory in which the kernel keeps one file for each vulnerability.
pub const VULNERABILITIES_DIR: &'static str = "/sys/devices/system/cpu/vulnerabilities/";

// ---------------------------------------------------------------------------
// Frequencies
// ---------------------------------------------------------------------------
/// The path of the file `leaf` in the frequency directory of processor `n`.
pub open spec fn frequency_path(n: u8, leaf: Seq<char>) -> Seq<char> {
    "/sys/devices/system/cpu/cpu"@ + decimal_digits(n as nat) + "/cpufreq/"@ + leaf
}

/// The frequency in kHz that `contents` holds: the unsigned number that the
/// text writes once the white space around it is left out. `NotFound` where
/// there is no file, and a malformed `field` of processor `n` where the text
/// writes no such number.
pub open spec fn frequency_of(n: u8, field: DataField, contents: Option<Seq<char>>) -> Result<
    u64,
    InfoError,
> {
    match contents {
        None => Err(InfoError::NotFound),
        Some(text) => match parse_unsigned(trim(text), u64::MAX as nat) {
            Some(khz) => Ok(khz as u64),
            None => Err(InfoError::MalformedData { section: n as usize, field }),
        },
    }
}

/// The lowest and the highest frequency of processor `n`, or the first
/// failure, the lowest frequency being read first.
pub open spec fn frequency_range_of(
    n: u8,
    min: Option<Seq<char>>,
    max: Option<Seq<char>>,
) -> Result<(u64, u64), InfoError> {
    match frequency_of(n, DataField::MinFrequency, min) {
        Err(e) => Err(e),
        Ok(lowest) => match frequency_of(n, DataField::MaxFrequency, max) {
            Err(e) => Err(e),
            Ok(highest) => Ok((lowest, highest)),
        },
    }
}

/// Builds the path of `leaf` in the frequency directory of processor `n`.
fn path_in_cpufreq(n: u8, leaf: &str) -> (r: String)
    ensures
        r@ == frequency_path(n, leaf@),
{
    let mut path = String::from_str("/sys/devices/system/cpu/cpu");
    path.append(to_text(&write_u8(n)).as_str());
    path.append("/cpufreq/");
    path.append(leaf);
    path
}

/// Where the kernel says the lowest frequency of processor `n`.
pub fn min_freq_path(n: u8) -> (r: String)
    ensures
        r@ == frequency_path(n, "cpuinfo_min_freq"@),
{
    path_in_cpufreq(n, "cpuinfo_min_freq")
}

/// Where the kernel says the highest frequency of processor `n`.
pub fn max_freq_path(n: u8) -> (r: String)
    ensures
        r@ == frequency_path(n, "cpuinfo_max_freq"@),
{
    path_in_cpufreq(n, "cpuinfo_max_freq")
}

/// Reads one frequency.
fn read_frequency(n: u8, field: DataField, contents: Option<&str>) -> (r: Result<u64, InfoError>)
    ensures
        r == frequency_of(n, field, text_of(contents)),
{
    match contents {
        None => Err(InfoError::NotFound),
        Some(text) => match parse_u64(&trimmed(&to_chars(text))) {
            Some(khz) => Ok(khz),
            None => Err(InfoError::MalformedData { section: n as usize, field }),
        },
    }
}

/// The lowest and the highest frequency of processor `n` in kHz, given what
/// was found at `min_freq_path(n)` and at `max_freq_path(n)`, each `None`
/// where no file is there.
pub fn get_min_max_cpu_freq(n: u8, min: Option<&str>, max: Option<&str>) -> (r: Result<
    (u64, u64),
    InfoError,
>)
    ensures
        r == frequency_range_of(n, text_of(min), text_of(max)),
{
    match read_frequency(n, DataField::MinFrequency, min) {
        Err(e) => Err(e),
        Ok(lowest) => match read_frequency(n, DataField::MaxFrequency, max) {
            Err(e) => Err(e),
            Ok(highest) => Ok((lowest, highest)),
        },
    }
}

// ---------------------------------------------------------------------------
// Vulnerabilities: models
// ---------------------------------------------------------------------------
/// One file of the vulnerabilities directory: its name and its text.
#[derive(Clone, Debug)]
pub struct VulnerabilityFile {
    pub name: String,
    pub content: String,
}

/// The names and the texts of `files`.
pub open spec fn listing_of(files: Seq<VulnerabilityFile>) -> Seq<(Seq<char>, Seq<char>)> {
    Seq::new(files.len(), |i: int| (files[i].name@, files[i].content@))
}

/// The names and the texts of an optional listing.
pub open spec fn found_listing(files: Option<&Vec<VulnerabilityFile>>) -> Option<
    Seq<(Seq<char>, Seq<char>)>,
> {
    match files {
        Some(v) => Some(listing_of(v@)),
        None => None,
    }
}

/// Whether `content` says that the processor is not affected.
pub open spec fn is_unaffected(content: Seq<char>) -> bool {
    content == "Not affected\n"@
}

/// The mitigation that `content` describes: what follows `Mitigation: `,
/// without the white space around it. `None` where `content` starts otherwise.
pub open spec fn mitigation_of(content: Seq<char>) -> Option<Seq<char>> {
    if starts_with(content, "Mitigation: "@) {
        Some(trim(content.skip("Mitigation: "@.len() as int)))
    } else {
        None
    }
}

/// The mitigations that `files` describe, by the names of the files. A file
/// that says `Not affected` adds nothing; any other file must describe a
/// mitigation, and the first that does not fails the scan under its index.
pub open spec fn scan(files: Seq<(Seq<char>, Seq<char>)>) -> Result<
    Map<Seq<char>, Seq<char>>,
    InfoError,
>
    decreases files.len(),
{
    if files.len() == 0 {
        Ok(Map::empty())
    } else {
        match scan(files.drop_last()) {
            Err(e) => Err(e),
            Ok(found) => {
                if is_unaffected(files.last().1) {
                    Ok(found)
                } else {
                    match mitigation_of(files.last().1) {
                        Some(text) => Ok(found.insert(files.last().0, text)),
                        None => Err(
                            InfoError::MalformedData {
                                section: (files.len() - 1) as usize,
                                field: DataField::Mitigation,
                            },
                        ),
                    }
                }
            },
        }
    }
}

/// What scanning the vulnerabilities directory gives: `NotFound` where the
/// directory is not there.
pub open spec fn vulnerabilities_of(listing: Option<Seq<(Seq<char>, Seq<char>)>>) -> Result<
    Map<Seq<char>, Seq<char>>,
    InfoError,
> {
    match listing {
        Some(files) => scan(files),
        None => Err(InfoError::NotFound),
    }
}

/// The mapping that `entries` write down: each name with its text, a later
/// entry replacing an earlier one of the same name.
pub open spec fn map_of(entries: Seq<(String, String)>) -> Map<Seq<char>, Seq<char>>
    decreases entries.len(),
{
    if entries.len() == 0 {
        Map::empty()
    } else {
        map_of(entries.drop_last()).insert(entries.last().0@, entries.last().1@)
    }
}

/// Whether no two of `entries` have the same name.
pub open spec fn distinct_names(entries: Seq<(String, String)>) -> bool {
    forall|i: int, j: int|
        0 <= i < j < entries.len() ==> (#[trigger] entries[i]).0@ != (#[trigger] entries[j]).0@
}

// ---------------------------------------------------------------------------
// Vulnerabilities: facts
// ---------------------------------------------------------------------------
/// Once a file cannot be read, the files after it change nothing.
pub proof fn lemma_scan_failure_stays(files: Seq<(Seq<char>, Seq<char>)>, k: int)
    requires
        0 <= k <= files.len(),
        scan(files.take(k)) is Err,
    ensures
        scan(files) == scan(files.take(k)),
    decreases files.len() - k,
{
    if k == files.len() {
        assert(files.take(k) =~= files);
    } else {
        assert(files.drop_last().take(k) =~= files.take(k));
        lemma_scan_failure_stays(files.drop_last(), k);
    }
}

/// A scan that succeeds holds a name exactly where a file of that name says
/// something other than `Not affected`.
pub proof fn lemma_scan_keys(files: Seq<(Seq<char>, Seq<char>)>, name: Seq<char>)
    requires
        scan(files) is Ok,
    ensures
        scan(files)->Ok_0.contains_key(name) <==> exists|i: int|
            0 <= i < files.len() && (#[trigger] files[i]).0 == name && !is_unaffected(files[i].1),
    decreases files.len(),
{
    if files.len() > 0 {
        let front = files.drop_last();
        lemma_scan_keys(front, name);
        let found = scan(files)->Ok_0;
        if found.contains_key(name) {
            if files.last().0 == name && !is_unaffected(files.last().1) {
                assert(files[files.len() - 1].0 == name);
            } else {
                let i = choose|i: int|
                    0 <= i < front.len() && (#[trigger] front[i]).0 == name && !is_unaffected(
                        front[i].1,
                    );
                assert(files[i] == front[i]);
            }
        }
        if exists|i: int|
            0 <= i < files.len() && (#[trigger] files[i]).0 == name && !is_unaffected(files[i].1) {
            let i = choose|i: int|
                0 <= i < files.len() && (#[trigger] files[i]).0 == name && !is_unaffected(
                    files[i].1,
                );
            if i < front.len() {
                assert(front[i] == files[i]);
            }
        }
    }
}

/// The names of a mapping are those of its entries; where no name occurs
/// twice, the mapping has as many names as there are entries, and each entry
/// is found under its name.
pub proof fn lemma_map_of(entries: Seq<(String, String)>)
    ensures
        map_of(entries).dom().finite(),
        forall|name: Seq<char>|
            map_of(entries).contains_key(name) <==> exists|i: int|
                0 <= i < entries.len() && (#[trigger] entries[i]).0@ == name,
        distinct_names(entries) ==> map_of(entries).len() == entries.len(),
        distinct_names(entries) ==> forall|i: int|
            0 <= i < entries.len() ==> map_of(entries)[(#[trigger] entries[i]).0@] == entries[i].1@,
    decreases entries.len(),
{
    if entries.len() > 0 {
        let front = entries.drop_last();
        let last = entries.last();
        lemma_map_of(front);
        assert forall|name: Seq<char>|
            map_of(entries).contains_key(name) <==> exists|i: int|
                0 <= i < entries.len() && (#[trigger] entries[i]).0@ == name by {
            if map_of(entries).contains_key(name) {
                if name == last.0@ {
                    assert(entries[entries.len() - 1].0@ == name);
                } else {
                    let i = choose|i: int| 0 <= i < front.len() && (#[trigger] front[i]).0@ == name;
                    assert(entries[i] == front[i]);
                }
            }
            if exists|i: int| 0 <= i < entries.len() && (#[trigger] entries[i]).0@ == name {
                let i = choose|i: int| 0 <= i < entries.len() && (#[trigger] entries[i]).0@ == name;
                if i < front.len() {
                    assert(front[i] == entries[i]);
                }
            }
        }
        if distinct_names(entries) {
            assert forall|i: int, j: int| 0 <= i < j < front.len() implies (#[trigger] front[i]).0@
                != (#[trigger] front[j]).0@ by {
                assert(front[i] == entries[i]);
                assert(front[j] == entries[j]);
            }
            if map_of(front).contains_key(last.0@) {
                let i = choose|i: int| 0 <= i < front.len() && (#[trigger] front[i]).0@ == last.0@;
                assert(entries[i] == front[i]);
                assert(entries[entries.len() - 1] == last);
            }
            assert(!map_of(front).contains_key(last.0@));
            assert forall|i: int| 0 <= i < entries.len() implies map_of(entries)[(
            #[trigger] entries[i]).0@] == entries[i].1@ by {
                if i < front.len() {
                    assert(entries[i] == front[i]);
                    assert(entries[entries.len() - 1] == last);
                }
            }
        }
    }
}

/// Replacing the text of an entry is storing the new text under its name.
pub proof fn lemma_map_of_update(entries: Seq<(String, String)>, i: int, entry: (String, String))
    requires
        0 <= i < entries.len(),
        distinct_names(entries),
        entries[i].0@ == entry.0@,
    ensures
        map_of(entries.update(i, entry)) == map_of(entries).insert(entry.0@, entry.1@),
        distinct_names(entries.update(i, entry)),
    decreases entries.len(),
{
    let updated = entries.update(i, entry);
    let front = entries.drop_last();
    assert forall|a: int, b: int| 0 <= a < b < updated.len() implies (#[trigger] updated[a]).0@ != (
    #[trigger] updated[b]).0@ by {
        assert(entries[a].0@ != entries[b].0@);
    }
    if i == entries.len() - 1 {
        assert(updated.drop_last() =~= front);
        assert(map_of(front).insert(entries.last().0@, entries.last().1@).insert(
            entry.0@,
            entry.1@,
        ) =~= map_of(front).insert(entry.0@, entry.1@));
    } else {
        assert forall|a: int, b: int| 0 <= a < b < front.len() implies (#[trigger] front[a]).0@ != (
        #[trigger] front[b]).0@ by {
            assert(front[a] == entries[a]);
            assert(front[b] == entries[b]);
        }
        lemma_map_of_update(front, i, entry);
        assert(updated.drop_last() =~= front.update(i, entry));
        assert(updated.last() == entries.last());
        assert(entries[i].0@ != entries[entries.len() - 1].0@);
        assert(map_of(front).insert(entry.0@, entry.1@).insert(
            entries.last().0@,
            entries.last().1@,
        ) =~= map_of(front).insert(entries.last().0@, entries.last().1@).insert(
            entry.0@,
            entry.1@,
        ));
    }
}

// ---------------------------------------------------------------------------
// Vulnerabilities: the mapping
// ---------------------------------------------------------------------------
/// The vulnerabilities that affect the processor: for the name of each, how
/// the kernel mitigates it. No name occurs twice.
#[derive(Debug)]
pub struct Vulnerabilities {
    entries: Vec<(String, String)>,
}

impl View for Vulnerabilities {
    type V = Map<Seq<char>, Seq<char>>;

    closed spec fn view(&self) -> Map<Seq<char>, Seq<char>> {
        map_of(self.entries@)
    }
}

/// What `r` holds, as a model.
pub open spec fn outcome(r: Result<Vulnerabilities, InfoError>) -> Result<
    Map<Seq<char>, Seq<char>>,
    InfoError,
> {
    match r {
        Ok(found) => Ok(found@),
        Err(e) => Err(e),
    }
}

impl Vulnerabilities {
    #[verifier::type_invariant]
    spec fn well_formed(self) -> bool {
        distinct_names(self.entries@)
    }

    /// The mapping without any name.
    pub fn new() -> (r: Vulnerabilities)
        ensures
            r@ == Map::<Seq<char>, Seq<char>>::empty(),
    {
        Vulnerabilities { entries: Vec::new() }
    }

    /// The index of the entry named `name`, or the number of entries where
    /// none has that name.
    fn index_of(&self, name: &str) -> (i: usize)
        ensures
            i <= self.entries@.len(),
            i < self.entries@.len() ==> self.entries@[i as int].0@ == name@,
            forall|j: int| 0 <= j < i ==> (#[trigger] self.entries@[j]).0@ != name@,
    {
        let wanted = to_chars(name);
        let mut i: usize = 0;
        while i < self.entries.len()
            invariant
                wanted@ == name@,
                i <= self.entries@.len(),
                forall|j: int| 0 <= j < i ==> (#[trigger] self.entries@[j]).0@ != name@,
            decreases self.entries@.len() - i,
        {
            if same(&wanted, self.entries[i].0.as_str()) {
                return i;
            }
            i += 1;
        }
        i
    }

    /// The mapping with `text` stored under `name`, in place of what was
    /// stored under that name before.
    pub fn insert(self, name: String, text: String) -> (r: Vulnerabilities)
        ensures
            r@ == self@.insert(name@, text@),
    {
        proof {
            use_type_invariant(&self);
        }
        let i = self.index_of(name.as_str());
        let mut entries = self.entries;
        if i < entries.len() {
            proof {
                lemma_map_of_update(entries@, i as int, (name, text));
            }
            entries.set(i, (name, text));
        } else {
            proof {
                let grown = entries@.push((name, text));
                assert(grown.drop_last() =~= entries@);
                assert forall|a: int, b: int| 0 <= a < b < grown.len() implies (
                #[trigger] grown[a]).0@ != (#[trigger] grown[b]).0@ by {
                    if b < entries@.len() {
                        assert(entries@[a].0@ != entries@[b].0@);
                    } else {
                        assert(entries@[a].0@ != name@);
                    }
                }
            }
            entries.push((name, text));
        }
        Vulnerabilities { entries }
    }

    /// The number of vulnerabilities.
    pub fn len(&self) -> (n: usize)
        ensures
            self@.dom().finite(),
            n == self@.len(),
    {
        proof {
            use_type_invariant(self);
            lemma_map_of(self.entries@);
        }
        self.entries.len()
    }

    /// How the vulnerability `name` is mitigated, where the processor is
    /// affected by it.
    pub fn get(&self, name: &str) -> (r: Option<&String>)
        ensures
            match r {
                Some(text) => self@.contains_key(name@) && self@[name@] == text@,
                None => !self@.contains_key(name@),
            },
    {
        proof {
            use_type_invariant(self);
            lemma_map_of(self.entries@);
        }
        let i = self.index_of(name);
        if i < self.entries.len() {
            Some(&self.entries[i].1)
        } else {
            None
        }
    }

    /// The names with their mitigations, each name once.
    pub fn entries(&self) -> (r: &Vec<(String, String)>)
        ensures
            map_of(r@) == self@,
            distinct_names(r@),
    {
        proof {
            use_type_invariant(self);
        }
        &self.entries
    }
}

/// Scans the files of the vulnerabilities directory.
pub fn scan_files(files: &Vec<VulnerabilityFile>) -> (r: Result<Vulnerabilities, InfoError>)
    ensures
        outcome(r) == scan(listing_of(files@)),
{
    let ghost all = listing_of(files@);
    let mut found = Vulnerabilities::new();
    assert(all.take(0) =~= Seq::<(Seq<char>, Seq<char>)>::empty());
    let mut i: usize = 0;
    while i < files.len()
        invariant
            i <= files@.len(),
            all == listing_of(files@),
            scan(all.take(i as int)) == Ok::<Map<Seq<char>, Seq<char>>, InfoError>(found@),
        decreases files@.len() - i,
    {
        proof {
            assert(all.take(i + 1).drop_last() =~= all.take(i as int));
            assert(all.take(i + 1).last() == (files@[i as int].name@, files@[i as int].content@));
        }
        let content = to_chars(files[i].content.as_str());
        if !same(&content, "Not affected\n") {
            match strip_prefix(&content, "Mitigation: ") {
                Some(rest) => {
                    found = found.insert(files[i].name.clone(), to_text(&trimmed(&rest)));
                },
                None => {
                    proof {
                        lemma_scan_failure_stays(all, i + 1);
                    }
                    return Err(
                        InfoError::MalformedData { section: i, field: DataField::Mitigation },
                    );
                },
            }
        }
        i += 1;
    }
    assert(all.take(files@.len() as int) =~= all);
    Ok(found)
}

/// The vulnerabilities that affect the processor, given the files that were
/// found in `VULNERABILITIES_DIR`: `None` where the directory is not there,
/// which is the failure `NotFound`, never an empty mapping.
pub fn get_cpu_vulnerabilities(listing: Option<&Vec<VulnerabilityFile>>) -> (r: Result<
    Vulnerabilities,
    InfoError,
>)
    ensures
        outcome(r) == vulnerabilities_of(found_listing(listing)),
        listing is None ==> r is Err,
{
    match listing {
        Some(files) => scan_files(files),
        None => Err(InfoError::NotFound),
    }
}

} // verus!
