use sys_info::error::{DataField, InfoError};
use sys_info::linux::files::cpuinfo::{
    split_records, CpuEntry, Cpuinfo, InformationEntry, ProcessorEntry, CPUINFO_PATH,
};
use sys_info::text::{to_chars, to_text};

fn table(text: &str) -> Cpuinfo {
    match Cpuinfo::parse(Some(text)) {
        Ok(info) => info,
        Err(e) => panic!("the table should parse: {:?}", e),
    }
}

fn failure(text: &str) -> InfoError {
    match Cpuinfo::parse(Some(text)) {
        Ok(_) => panic!("the table should not parse"),
        Err(e) => e,
    }
}

fn processor(entry: &CpuEntry) -> &ProcessorEntry {
    match entry {
        CpuEntry::Processor(p) => p,
        CpuEntry::Information(_) => panic!("a processor entry was expected"),
    }
}

fn information(entry: &CpuEntry) -> &InformationEntry {
    match entry {
        CpuEntry::Information(i) => i,
        CpuEntry::Processor(_) => panic!("an information entry was expected"),
    }
}

#[test]
fn single_processor_section() {
    let info = table("processor\t: 0\ncpu MHz\t\t: 2400.0\ncpu cores\t: 4\n");
    assert_eq!(info.entries().len(), 1);
    let p = processor(&info.entries()[0]);
    assert_eq!(*p.processor(), 0);
    assert_eq!(p.cpu_mhz().as_str(), "2400.0");
    assert_eq!(p.cpu_mhz().parse::<f64>().unwrap(), 2400.0);
    assert_eq!(*p.cpu_cores(), 4);
    assert_eq!(*info.cores(), 4);
}

#[test]
fn one_entry_for_each_section_in_order() {
    let text = "processor : 0\ncpu cores : 2\n\nprocessor : 1\ncpu cores : 2\n\nHardware : BCM2835\nRevision : a02082\n";
    let info = table(text);
    assert_eq!(info.entries().len(), 3);
    assert_eq!(*processor(&info.entries()[0]).processor(), 0);
    assert_eq!(*processor(&info.entries()[1]).processor(), 1);
    assert_eq!(information(&info.entries()[2]).revision().as_str(), "a02082");
    let records = split_records(&to_chars(text));
    assert_eq!(records.len(), 3);
    assert_eq!(to_text(&records[1]), "processor : 1\ncpu cores : 2");
}

#[test]
fn empty_sections_are_left_out() {
    let info = table("\n\nprocessor : 3\n\n\n\nmodel : x\n\n");
    assert_eq!(info.entries().len(), 2);
    assert_eq!(*processor(&info.entries()[0]).processor(), 3);
    assert_eq!(information(&info.entries()[1]).model().as_str(), "x");
    assert_eq!(table("").entries().len(), 0);
    assert_eq!(table("\n\n\n\n").entries().len(), 0);
}

#[test]
fn odd_blank_lines_start_a_section_with_an_empty_line() {
    // Three line feeds: the third one opens the next section, whose first
    // line is empty, so that the section is no processor section.
    let info = table("processor : 0\n\n\nprocessor : 1\nmodel : m\n");
    assert_eq!(info.entries().len(), 2);
    assert_eq!(*processor(&info.entries()[0]).processor(), 0);
    assert_eq!(information(&info.entries()[1]).model().as_str(), "m");
}

#[test]
fn cores_is_taken_from_the_first_processor() {
    let info = table("model : board\n\nprocessor : 0\ncpu cores : 6\n\nprocessor : 1\ncpu cores : 8\n");
    assert_eq!(*info.cores(), 6);
    let info = table("processor : 0\ncpu cores : 8\n\nmodel : board\n\nprocessor : 1\ncpu cores : 6\n");
    assert_eq!(*info.cores(), 8);
}

#[test]
fn cores_is_zero_without_a_processor() {
    assert_eq!(*table("model : board\n\nserial : 1\n").cores(), 0);
    assert_eq!(*table("").cores(), 0);
    // A processor section without a core count keeps the count 0.
    assert_eq!(*table("processor : 0\n\nprocessor : 1\ncpu cores : 4\n").cores(), 0);
}

#[test]
fn missing_table_is_not_found() {
    match Cpuinfo::parse(None) {
        Ok(_) => panic!("a missing table is no table"),
        Err(e) => assert_eq!(e, InfoError::NotFound),
    }
    assert_eq!(CPUINFO_PATH, "/proc/cpuinfo");
}

#[test]
fn malformed_values_name_section_and_field() {
    assert_eq!(
        failure("processor : zero\n"),
        InfoError::MalformedData { section: 0, field: DataField::Processor }
    );
    assert_eq!(
        failure("processor : 0\n\nprocessor : 1\ncpu MHz : fast\n"),
        InfoError::MalformedData { section: 1, field: DataField::CpuMhz }
    );
    assert_eq!(
        failure("model : m\n\n\n\nprocessor : 1\n\nprocessor : 2\ncpu cores : 256\n"),
        InfoError::MalformedData { section: 2, field: DataField::CpuCores }
    );
    // The first value that cannot be read decides.
    assert_eq!(
        failure("processor : 0\ncpu cores : -1\ncpu MHz : x\n\nprocessor : y\n"),
        InfoError::MalformedData { section: 0, field: DataField::CpuCores }
    );
    assert_eq!(
        failure("processor : \n"),
        InfoError::MalformedData { section: 0, field: DataField::Processor }
    );
}

#[test]
fn keys_are_trimmed_and_taken_in_any_case() {
    let info = table("  PROCESSOR  :  7 \n CPU MHZ:1.5e3\nCpu Cores\t:\t+12\nflags : fpu vme\n");
    let p = processor(&info.entries()[0]);
    assert_eq!(*p.processor(), 7);
    assert_eq!(p.cpu_mhz().as_str(), "1.5e3");
    assert_eq!(*p.cpu_cores(), 12);
}

#[test]
fn later_lines_replace_earlier_ones() {
    let info = table("processor : 1\nprocessor : 2\ncpu cores : 3\ncpu cores : 4\n");
    let p = processor(&info.entries()[0]);
    assert_eq!(*p.processor(), 2);
    assert_eq!(*p.cpu_cores(), 4);
}

#[test]
fn processor_defaults() {
    let info = table("processor\n");
    // The first key is `processor`, and the line has no colon: no value is set.
    let p = processor(&info.entries()[0]);
    assert_eq!(*p.processor(), 0);
    assert_eq!(p.cpu_mhz().as_str(), "0");
    assert_eq!(p.cpu_mhz().parse::<f64>().unwrap(), 0.0);
    assert_eq!(*p.cpu_cores(), 0);
}

#[test]
fn information_section() {
    let text = "Hardware\t: BCM2835\nRevision\t: a02082\nSerial\t\t: 00000000abcdef01\nModel\t\t: Raspberry Pi 3 Model B Rev 1.2\n";
    let info = table(text);
    assert_eq!(info.entries().len(), 1);
    let i = information(&info.entries()[0]);
    assert_eq!(i.revision().as_str(), "a02082");
    assert_eq!(i.serial().as_str(), "00000000abcdef01");
    assert_eq!(i.model().as_str(), "Raspberry Pi 3 Model B Rev 1.2");
    assert_eq!(*info.cores(), 0);
}

#[test]
fn values_are_split_at_the_first_colon_only() {
    let i = InformationEntry::parse("model : Intel: i7 : fast\nserial:\nrevision\n".to_string());
    assert_eq!(i.model().as_str(), "Intel: i7 : fast");
    assert_eq!(i.serial().as_str(), "");
    assert_eq!(i.revision().as_str(), "");
}

#[test]
fn carriage_returns_end_lines_too() {
    let info = table("processor : 5\r\ncpu cores : 2\r\n");
    let p = processor(&info.entries()[0]);
    assert_eq!(*p.processor(), 5);
    assert_eq!(*p.cpu_cores(), 2);
}

#[test]
fn entry_parsers_on_their_own() {
    let p = ProcessorEntry::parse("processor : 9\ncpu MHz : 800.123\ncpu cores : 1".to_string()).unwrap();
    assert_eq!(*p.processor(), 9);
    assert_eq!(p.cpu_mhz().as_str(), "800.123");
    assert_eq!(*p.cpu_cores(), 1);
    let q = p.clone();
    assert_eq!(q.cpu_mhz().as_str(), "800.123");
    assert_eq!(
        ProcessorEntry::parse("cpu cores : many".to_string()).err(),
        Some(InfoError::MalformedData { section: 0, field: DataField::CpuCores })
    );
    match CpuEntry::parse("processor : 1\n".to_string()) {
        Ok(CpuEntry::Processor(p)) => assert_eq!(*p.processor(), 1),
        _ => panic!("a processor entry was expected"),
    }
    match CpuEntry::parse("model name : x\nprocessor : 1\n".to_string()) {
        Ok(CpuEntry::Information(_)) => {}
        _ => panic!("an information entry was expected"),
    }
    match CpuEntry::parse(String::new()) {
        Ok(CpuEntry::Information(i)) => assert_eq!(i.model().as_str(), ""),
        _ => panic!("an information entry was expected"),
    }
    match CpuEntry::parse("Processor : x".to_string()) {
        Err(e) => assert_eq!(e, InfoError::MalformedData { section: 0, field: DataField::Processor }),
        Ok(_) => panic!("the section should not parse"),
    }
}

#[test]
fn classification_by_leading_key() {
    assert!(CpuEntry::is_processor_key("processor"));
    assert!(CpuEntry::is_processor_key("processor\t"));
    assert!(CpuEntry::is_processor_key("  Processor "));
    assert!(CpuEntry::is_processor_key("PROCESSOR"));
    assert!(!CpuEntry::is_processor_key("processors"));
    assert!(!CpuEntry::is_processor_key("model name"));
    assert!(!CpuEntry::is_processor_key(""));
    assert!(!CpuEntry::is_processor_key("pro cessor"));
}

#[test]
fn clock_rates_are_what_the_float_parser_reads() {
    let samples = [
        "0", "1", "2400.0", "2400.000", "+3.5", "-1", "1e3", "1E3", "1e+3", "1e-3", "1.e3",
        ".5", "5.", "+.5e-3", "inf", "-inf", "+Infinity", "INFINITY", "nan", "NaN", "-nan",
        "007", "1.7976931348623157e308", "1e999", "", "+", "-", ".", "e5", "1e", "1e+",
        "1.2.3", "1 2", "0x10", "1_000", "infinit", "in", "nane", "1f", "1.0f", "--1", "+-1",
        "1e5.0", ".e1", "+.", "1,5", "٣", "1e٣", "İnf", "K", "１",
    ];
    for s in samples {
        let section = format!("cpu MHz : {}", s);
        let read = ProcessorEntry::parse(section);
        let expected = s.parse::<f64>().is_ok();
        assert_eq!(read.is_ok(), expected, "clock rate {:?}", s);
        if let Ok(p) = read {
            assert_eq!(p.cpu_mhz().as_str(), s);
        }
    }
}

#[test]
fn counts_are_what_the_integer_parser_reads() {
    let samples = [
        "0", "1", "255", "256", "+5", "+0", "005", "0000000000000000000000255", "", "+", "-",
        "-0", "-1", "1 2", "12a", "a12", "0x1", "١", "1.0", "99999999999999999999999999",
        "+255", "+256", "++1",
    ];
    for s in samples {
        let section = format!("cpu cores : {}", s);
        let read = ProcessorEntry::parse(section);
        match s.parse::<u8>() {
            Ok(n) => assert_eq!(*read.unwrap().cpu_cores(), n, "count {:?}", s),
            Err(_) => assert_eq!(
                read.err(),
                Some(InfoError::MalformedData { section: 0, field: DataField::CpuCores }),
                "count {:?}",
                s
            ),
        }
    }
}
