use sys_info::error::InfoError;
use sys_info::linux::files::os_release::{
    LogoFile, OsRelease, ReleaseKey, ETC_OS_RELEASE, USR_LIB_OS_RELEASE,
};
use sys_info::text::to_chars;

fn text(field: &Option<String>) -> Option<&str> {
    field.as_ref().map(|s| s.as_str())
}

fn list(field: &Option<Vec<String>>) -> Option<Vec<&str>> {
    field.as_ref().map(|v| v.iter().map(|s| s.as_str()).collect())
}

#[test]
fn absent_keys_are_not_present() {
    let r = OsRelease::parse_all("ID=ubuntu\nVERSION_ID=\n");
    assert_eq!(text(r.id()), Some("ubuntu"));
    // Present with an empty value is not the same as absent.
    assert_eq!(text(r.version_id()), Some(""));
    assert_eq!(text(r.name()), None);
    assert_eq!(text(r.pretty_name()), None);
    assert_eq!(text(r.version()), None);
    assert_eq!(list(r.id_like()), None);
    assert_eq!(list(r.portable_prefixes()), None);
    assert_eq!(text(r.logo()), None);
}

#[test]
fn empty_manifest_has_no_field() {
    let r = OsRelease::parse_all("");
    assert!(r.name().is_none() && r.id().is_none() && r.id_like().is_none());
    assert!(r.pretty_name().is_none() && r.cpe_name().is_none() && r.variant().is_none());
    assert!(r.variant_id().is_none() && r.version().is_none() && r.version_id().is_none());
    assert!(r.version_codename().is_none() && r.build_id().is_none() && r.image_id().is_none());
    assert!(r.image_version().is_none() && r.home_url().is_none());
    assert!(r.documentation_url().is_none() && r.support_url().is_none());
    assert!(r.bug_report_url().is_none() && r.privacy_policy_url().is_none());
    assert!(r.support_end().is_none() && r.logo().is_none() && r.ansi_color().is_none());
    assert!(r.vendor_name().is_none() && r.vendor_url().is_none());
    assert!(r.default_hostname().is_none() && r.architecture().is_none());
    assert!(r.sysext_level().is_none() && r.confext_level().is_none());
    assert!(r.sysext_scope().is_none() && r.confext_scope().is_none());
    assert!(r.portable_prefixes().is_none());
    assert!(r.get_name().is_none());
    assert!(r.logo_path().is_none());
}

#[test]
fn get_name_prefers_pretty_name() {
    let r = OsRelease::parse_all("PRETTY_NAME=\"Foo\"\n");
    assert_eq!(text(r.get_name()), Some("Foo"));
    let r = OsRelease::parse_all("NAME=Bar\n");
    assert_eq!(text(r.get_name()), Some("Bar"));
    let r = OsRelease::parse_all("ID=baz\n");
    assert_eq!(text(r.get_name()), None);
    let r = OsRelease::parse_all("NAME=Bar\nPRETTY_NAME=\"Foo\"\n");
    assert_eq!(text(r.get_name()), Some("Foo"));
    let r = OsRelease::parse_all("PRETTY_NAME=\nNAME=Bar\n");
    assert_eq!(text(r.get_name()), Some(""));
}

#[test]
fn list_fields_are_split_at_spaces() {
    let r = OsRelease::parse_all("ID_LIKE=\"debian ubuntu\"\n");
    assert_eq!(list(r.id_like()), Some(vec!["debian", "ubuntu"]));
    let r = OsRelease::parse_all("ID_LIKE=rhel centos fedora\nPORTABLE_PREFIXES=\"io.systemd.Portable\"\n");
    assert_eq!(list(r.id_like()), Some(vec!["rhel", "centos", "fedora"]));
    assert_eq!(list(r.portable_prefixes()), Some(vec!["io.systemd.Portable"]));
    let r = OsRelease::parse_all("ID_LIKE=\nPORTABLE_PREFIXES=a  b \n");
    assert_eq!(list(r.id_like()), Some(vec![""]));
    assert_eq!(list(r.portable_prefixes()), Some(vec!["a", "", "b", ""]));
}

#[test]
fn unquoted_value_is_kept_as_it_is() {
    let r = OsRelease::parse_all("ID=ubuntu");
    assert_eq!(text(r.id()), Some("ubuntu"));
    // Keys that are stored raw keep their quotes.
    let r = OsRelease::parse_all("ID=\"ubuntu\"\nVERSION_ID=\"22.04\"\nLOGO=\"x\"\n");
    assert_eq!(text(r.id()), Some("\"ubuntu\""));
    assert_eq!(text(r.version_id()), Some("\"22.04\""));
    assert_eq!(text(r.logo()), Some("\"x\""));
}

#[test]
fn one_pair_of_quotes_is_left_out() {
    let r = OsRelease::parse_all(
        "NAME=\"Ubuntu\"\nCPE_NAME=\"\"cpe\"\"\nVARIANT=\"open\nBUILD_ID=closed\"\nANSI_COLOR=\"\nHOME_URL=\"\"\n",
    );
    assert_eq!(text(r.name()), Some("Ubuntu"));
    assert_eq!(text(r.cpe_name()), Some("\"cpe\""));
    assert_eq!(text(r.variant()), Some("\"open"));
    assert_eq!(text(r.build_id()), Some("closed\""));
    assert_eq!(text(r.ansi_color()), Some("\""));
    assert_eq!(text(r.home_url()), Some(""));
}

#[test]
fn values_are_split_at_the_first_equals_sign_only() {
    let r = OsRelease::parse_all("HOME_URL=\"https://example.org/?a=b&c=d\"\nID=a=b\n=x\n");
    assert_eq!(text(r.home_url()), Some("https://example.org/?a=b&c=d"));
    assert_eq!(text(r.id()), Some("a=b"));
}

#[test]
fn unknown_keys_and_other_lines_are_ignored() {
    let r = OsRelease::parse_all("# comment\nFOO=bar\nname=lower\n NAME=indented\nNAME\nUBUNTU_CODENAME=jammy\n\nID=x\n");
    assert_eq!(text(r.name()), None);
    assert_eq!(text(r.id()), Some("x"));
}

#[test]
fn later_manifest_lines_replace_earlier_ones() {
    let r = OsRelease::parse_all("ID=one\nID=two\r\nID_LIKE=a\nID_LIKE=b c\n");
    assert_eq!(text(r.id()), Some("two"));
    assert_eq!(list(r.id_like()), Some(vec!["b", "c"]));
}

#[test]
fn every_key_has_its_field() {
    let manifest = "NAME=\"n\"\nID=i\nID_LIKE=a b\nPRETTY_NAME=\"p n\"\nCPE_NAME=\"cpe:/o:x\"\nVARIANT=\"v\"\nVARIANT_ID=vi\nVERSION=1 (One)\nVERSION_ID=1\nVERSION_CODENAME=one\nBUILD_ID=\"b\"\nIMAGE_ID=img\nIMAGE_VERSION=33\nHOME_URL=\"h\"\nDOCUMENTATION_URL=\"d\"\nSUPPORT_URL=\"s\"\nBUG_REPORT_URL=\"br\"\nPRIVACY_POLICY_URL=\"pp\"\nSUPPORT_END=2030-01-01\nLOGO=logo\nANSI_COLOR=\"0;31\"\nVENDOR_NAME=vn\nVENDOR_URL=\"vu\"\nDEFAULT_HOSTNAME=host\nARCHITECTURE=x86-64\nSYSEXT_LEVEL=sl\nCONFEXT_LEVEL=cl\nSYSEXT_SCOPE=ss\nCONFEXT_SCOPE=cs\nPORTABLE_PREFIXES=p1 p2\n";
    let r = OsRelease::parse_all(manifest);
    assert_eq!(text(r.name()), Some("n"));
    assert_eq!(text(r.id()), Some("i"));
    assert_eq!(list(r.id_like()), Some(vec!["a", "b"]));
    assert_eq!(text(r.pretty_name()), Some("p n"));
    assert_eq!(text(r.cpe_name()), Some("cpe:/o:x"));
    assert_eq!(text(r.variant()), Some("v"));
    assert_eq!(text(r.variant_id()), Some("vi"));
    assert_eq!(text(r.version()), Some("1 (One)"));
    assert_eq!(text(r.version_id()), Some("1"));
    assert_eq!(text(r.version_codename()), Some("one"));
    assert_eq!(text(r.build_id()), Some("b"));
    assert_eq!(text(r.image_id()), Some("img"));
    assert_eq!(text(r.image_version()), Some("33"));
    assert_eq!(text(r.home_url()), Some("h"));
    assert_eq!(text(r.documentation_url()), Some("d"));
    assert_eq!(text(r.support_url()), Some("s"));
    assert_eq!(text(r.bug_report_url()), Some("br"));
    assert_eq!(text(r.privacy_policy_url()), Some("pp"));
    assert_eq!(text(r.support_end()), Some("2030-01-01"));
    assert_eq!(text(r.logo()), Some("logo"));
    assert_eq!(text(r.ansi_color()), Some("0;31"));
    assert_eq!(text(r.vendor_name()), Some("vn"));
    assert_eq!(text(r.vendor_url()), Some("vu"));
    assert_eq!(text(r.default_hostname()), Some("host"));
    assert_eq!(text(r.architecture()), Some("x86-64"));
    assert_eq!(text(r.sysext_level()), Some("sl"));
    assert_eq!(text(r.confext_level()), Some("cl"));
    assert_eq!(text(r.sysext_scope()), Some("ss"));
    assert_eq!(text(r.confext_scope()), Some("cs"));
    assert_eq!(list(r.portable_prefixes()), Some(vec!["p1", "p2"]));
    let copy = r.clone();
    assert_eq!(text(copy.get_name()), Some("p n"));
}

#[test]
fn keys_are_found_by_their_labels() {
    assert_eq!(ReleaseKey::from_label(&to_chars("NAME")), Some(ReleaseKey::Name));
    assert_eq!(ReleaseKey::from_label(&to_chars("ID")), Some(ReleaseKey::Id));
    assert_eq!(ReleaseKey::from_label(&to_chars("ID_LIKE")), Some(ReleaseKey::IdLike));
    assert_eq!(ReleaseKey::from_label(&to_chars("SYSEXT_SCOPE")), Some(ReleaseKey::SysextScope));
    assert_eq!(ReleaseKey::from_label(&to_chars("CONFEXT_SCOPE")), Some(ReleaseKey::ConfextScope));
    assert_eq!(
        ReleaseKey::from_label(&to_chars("PORTABLE_PREFIXES")),
        Some(ReleaseKey::PortablePrefixes)
    );
    assert_eq!(ReleaseKey::from_label(&to_chars("Name")), None);
    assert_eq!(ReleaseKey::from_label(&to_chars("NAME ")), None);
    assert_eq!(ReleaseKey::from_label(&to_chars("")), None);
    assert!(ReleaseKey::Name.quoted());
    assert!(ReleaseKey::VendorUrl.quoted());
    assert!(ReleaseKey::AnsiColor.quoted());
    assert!(!ReleaseKey::Id.quoted());
    assert!(!ReleaseKey::Version.quoted());
    assert!(!ReleaseKey::IdLike.quoted());
}

#[test]
fn the_first_manifest_that_is_there_is_read() {
    let r = OsRelease::parse(Some("ID=etc\n"), Some("ID=usr\n")).unwrap();
    assert_eq!(text(r.id()), Some("etc"));
    let r = OsRelease::parse(Some("ID=etc\n"), None).unwrap();
    assert_eq!(text(r.id()), Some("etc"));
    let r = OsRelease::parse(None, Some("ID=usr\n")).unwrap();
    assert_eq!(text(r.id()), Some("usr"));
    // An empty manifest is a manifest.
    let r = OsRelease::parse(Some(""), Some("ID=usr\n")).unwrap();
    assert_eq!(text(r.id()), None);
    assert_eq!(ETC_OS_RELEASE, "/etc/os-release");
    assert_eq!(USR_LIB_OS_RELEASE, "/usr/lib/os-release");
}

#[test]
fn missing_manifests_are_not_found() {
    assert_eq!(OsRelease::parse(None, None).err(), Some(InfoError::NotFound));
    assert_eq!(OsRelease::parse_file(None).err(), Some(InfoError::NotFound));
    let r = OsRelease::parse_file(Some("NAME=x\n")).unwrap();
    assert_eq!(text(r.name()), Some("x"));
}

#[test]
fn logo_path_is_under_pixmaps() {
    let r = OsRelease::parse_all("LOGO=fedora-logo-icon\n");
    assert_eq!(r.logo_path(), Some("/usr/share/pixmaps/fedora-logo-icon.svg".to_string()));
    assert_eq!(OsRelease::parse_all("ID=x\n").logo_path(), None);
    assert_eq!(OsRelease::parse_all("LOGO=\n").logo_path(), Some("/usr/share/pixmaps/.svg".to_string()));
}

#[test]
fn logo_svg_swallows_read_failures() {
    let with_logo = OsRelease::parse_all("LOGO=distro\n");
    let without = OsRelease::parse_all("ID=distro\n");
    assert_eq!(with_logo.get_logo_svg(LogoFile::Contents("<svg/>".to_string())), Some("<svg/>".to_string()));
    assert_eq!(with_logo.get_logo_svg(LogoFile::Unreadable), Some(String::new()));
    assert_eq!(with_logo.get_logo_svg(LogoFile::Missing), None);
    assert_eq!(without.get_logo_svg(LogoFile::Contents("<svg/>".to_string())), None);
    assert_eq!(without.get_logo_svg(LogoFile::Unreadable), None);
    assert_eq!(without.get_logo_svg(LogoFile::Missing), None);
}
