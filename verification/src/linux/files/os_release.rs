//! The manifest of the operating system, `os-release`: lines of `KEY=VALUE`.
//!
//! Format: <https://www.freedesktop.org/software/systemd/man/latest/os-release.html>

use crate::error::InfoError;
use crate::text::{
    lines, owned_text_of, owned_texts_of, pieces, rows, same, split, split_lines, split_once,
    split_pair, text_of, to_chars, to_text, to_texts, unquote, unquoted,
};
use vstd::prelude::*;
use vstd::string::StringExecFns;

verus! {

/// Where the manifest is found.
pub const ETC_OS_RELEASE: &'static str = "/etc/os-release";

/// Where the manifest is found on a system that has none at `ETC_OS_RELEASE`.
pub const USR_LIB_OS_RELEASE: &'static str = "/usr/lib/os-release";

// ---------------------------------------------------------------------------
// Keys
// ---------------------------------------------------------------------------
/// The keys of the manifest that have a field in `OsRelease`.
#[derive(Clone, Copy, Debug, PartialEq, Eq, Structural)]
pub enum ReleaseKey {
    Name,
    Id,
    IdLike,
    PrettyName,
    CpeName,
    Variant,
    VariantId,
    Version,
    VersionId,
    VersionCodename,
    BuildId,
    ImageId,
    ImageVersion,
    HomeUrl,
    DocumentationUrl,
    SupportUrl,
    BugReportUrl,
    PrivacyPolicyUrl,
    SupportEnd,
    Logo,
    AnsiColor,
    VendorName,
    VendorUrl,
    DefaultHostname,
    Architecture,
    SysextLevel,
    ConfextLevel,
    SysextScope,
    ConfextScope,
    PortablePrefixes,
}

impl ReleaseKey {
    /// The key as the manifest writes it.
    pub open spec fn label(self) -> Seq<char> {
        match self {
            ReleaseKey::Name => "NAME"@,
            ReleaseKey::Id => "ID"@,
            ReleaseKey::IdLike => "ID_LIKE"@,
            ReleaseKey::PrettyName => "PRETTY_NAME"@,
            ReleaseKey::CpeName => "CPE_NAME"@,
            ReleaseKey::Variant => "VARIANT"@,
            ReleaseKey::VariantId => "VARIANT_ID"@,
            ReleaseKey::Version => "VERSION"@,
            ReleaseKey::VersionId => "VERSION_ID"@,
            ReleaseKey::VersionCodename => "VERSION_CODENAME"@,
            ReleaseKey::BuildId => "BUILD_ID"@,
            ReleaseKey::ImageId => "IMAGE_ID"@,
            ReleaseKey::ImageVersion => "IMAGE_VERSION"@,
            ReleaseKey::HomeUrl => "HOME_URL"@,
            ReleaseKey::DocumentationUrl => "DOCUMENTATION_URL"@,
            ReleaseKey::SupportUrl => "SUPPORT_URL"@,
            ReleaseKey::BugReportUrl => "BUG_REPORT_URL"@,
            ReleaseKey::PrivacyPolicyUrl => "PRIVACY_POLICY_URL"@,
            ReleaseKey::SupportEnd => "SUPPORT_END"@,
            ReleaseKey::Logo => "LOGO"@,
            ReleaseKey::AnsiColor => "ANSI_COLOR"@,
            ReleaseKey::VendorName => "VENDOR_NAME"@,
            ReleaseKey::VendorUrl => "VENDOR_URL"@,
            ReleaseKey::DefaultHostname => "DEFAULT_HOSTNAME"@,
            ReleaseKey::Architecture => "ARCHITECTURE"@,
            ReleaseKey::SysextLevel => "SYSEXT_LEVEL"@,
            ReleaseKey::ConfextLevel => "CONFEXT_LEVEL"@,
            ReleaseKey::SysextScope => "SYSEXT_SCOPE"@,
            ReleaseKey::ConfextScope => "CONFEXT_SCOPE"@,
            ReleaseKey::PortablePrefixes => "PORTABLE_PREFIXES"@,
        }
    }

    /// The key that the manifest writes as `label`, if it is one: the
    /// comparison is exact, in case and in length.
    pub open spec fn of_label(label: Seq<char>) -> Option<ReleaseKey> {
        if label == "NAME"@ {
            Some(ReleaseKey::Name)
        } else if label == "ID"@ {
            Some(ReleaseKey::Id)
        } else if label == "ID_LIKE"@ {
            Some(ReleaseKey::IdLike)
        } else if label == "PRETTY_NAME"@ {
            Some(ReleaseKey::PrettyName)
        } else if label == "CPE_NAME"@ {
            Some(ReleaseKey::CpeName)
        } else if label == "VARIANT"@ {
            Some(ReleaseKey::Variant)
        } else if label == "VARIANT_ID"@ {
            Some(ReleaseKey::VariantId)
        } else if label == "VERSION"@ {
            Some(ReleaseKey::Version)
        } else if label == "VERSION_ID"@ {
            Some(ReleaseKey::VersionId)
        } else if label == "VERSION_CODENAME"@ {
            Some(ReleaseKey::VersionCodename)
        } else if label == "BUILD_ID"@ {
            Some(ReleaseKey::BuildId)
        } else if label == "IMAGE_ID"@ {
            Some(ReleaseKey::ImageId)
        } else if label == "IMAGE_VERSION"@ {
            Some(ReleaseKey::ImageVersion)
        } else if label == "HOME_URL"@ {
            Some(ReleaseKey::HomeUrl)
        } else if label == "DOCUMENTATION_URL"@ {
            Some(ReleaseKey::DocumentationUrl)
        } else if label == "SUPPORT_URL"@ {
            Some(ReleaseKey::SupportUrl)
        } else if label == "BUG_REPORT_URL"@ {
            Some(ReleaseKey::BugReportUrl)
        } else if label == "PRIVACY_POLICY_URL"@ {
            Some(ReleaseKey::PrivacyPolicyUrl)
        } else if label == "SUPPORT_END"@ {
            Some(ReleaseKey::SupportEnd)
        } else if label == "LOGO"@ {
            Some(ReleaseKey::Logo)
        } else if label == "ANSI_COLOR"@ {
            Some(ReleaseKey::AnsiColor)
        } else if label == "VENDOR_NAME"@ {
            Some(ReleaseKey::VendorName)
        } else if label == "VENDOR_URL"@ {
            Some(ReleaseKey::VendorUrl)
        } else if label == "DEFAULT_HOSTNAME"@ {
            Some(ReleaseKey::DefaultHostname)
        } else if label == "ARCHITECTURE"@ {
            Some(ReleaseKey::Architecture)
        } else if label == "SYSEXT_LEVEL"@ {
            Some(ReleaseKey::SysextLevel)
        } else if label == "CONFEXT_LEVEL"@ {
            Some(ReleaseKey::ConfextLevel)
        } else if label == "SYSEXT_SCOPE"@ {
            Some(ReleaseKey::SysextScope)
        } else if label == "CONFEXT_SCOPE"@ {
            Some(ReleaseKey::ConfextScope)
        } else if label == "PORTABLE_PREFIXES"@ {
            Some(ReleaseKey::PortablePrefixes)
        } else {
            None
        }
    }

    /// Whether one pair of double quotes around the value of this key is left
    /// out of what is stored.
    pub open spec fn is_quoted(self) -> bool {
        match self {
            ReleaseKey::Name
            | ReleaseKey::PrettyName
            | ReleaseKey::CpeName
            | ReleaseKey::Variant
            | ReleaseKey::BuildId
            | ReleaseKey::HomeUrl
            | ReleaseKey::DocumentationUrl
            | ReleaseKey::SupportUrl
            | ReleaseKey::BugReportUrl
            | ReleaseKey::PrivacyPolicyUrl
            | ReleaseKey::AnsiColor
            | ReleaseKey::VendorUrl => true,
            _ => false,
        }
    }

    /// Whether the value of this key is a list of words between spaces.
    pub open spec fn is_list(self) -> bool {
        self == ReleaseKey::IdLike || self == ReleaseKey::PortablePrefixes
    }

    /// The key that the manifest writes as `label`, if it is one.
    pub fn from_label(label: &Vec<char>) -> (r: Option<ReleaseKey>)
        ensures
            r == ReleaseKey::of_label(label@),
    {
        if same(label, "NAME") {
            Some(ReleaseKey::Name)
        } else if same(label, "ID") {
            Some(ReleaseKey::Id)
        } else if same(label, "ID_LIKE") {
            Some(ReleaseKey::IdLike)
        } else if same(label, "PRETTY_NAME") {
            Some(ReleaseKey::PrettyName)
        } else if same(label, "CPE_NAME") {
            Some(ReleaseKey::CpeName)
        } else if same(label, "VARIANT") {
            Some(ReleaseKey::Variant)
        } else if same(label, "VARIANT_ID") {
            Some(ReleaseKey::VariantId)
        } else if same(label, "VERSION") {
            Some(ReleaseKey::Version)
        } else if same(label, "VERSION_ID") {
            Some(ReleaseKey::VersionId)
        } else if same(label, "VERSION_CODENAME") {
            Some(ReleaseKey::VersionCodename)
        } else if same(label, "BUILD_ID") {
            Some(ReleaseKey::BuildId)
        } else if same(label, "IMAGE_ID") {
            Some(ReleaseKey::ImageId)
        } else if same(label, "IMAGE_VERSION") {
            Some(ReleaseKey::ImageVersion)
        } else if same(label, "HOME_URL") {
            Some(ReleaseKey::HomeUrl)
        } else if same(label, "DOCUMENTATION_URL") {
            Some(ReleaseKey::DocumentationUrl)
        } else if same(label, "SUPPORT_URL") {
            Some(ReleaseKey::SupportUrl)
        } else if same(label, "BUG_REPORT_URL") {
            Some(ReleaseKey::BugReportUrl)
        } else if same(label, "PRIVACY_POLICY_URL") {
            Some(ReleaseKey::PrivacyPolicyUrl)
        } else if same(label, "SUPPORT_END") {
            Some(ReleaseKey::SupportEnd)
        } else if same(label, "LOGO") {
            Some(ReleaseKey::Logo)
        } else if same(label, "ANSI_COLOR") {
            Some(ReleaseKey::AnsiColor)
        } else if same(label, "VENDOR_NAME") {
            Some(ReleaseKey::VendorName)
        } else if same(label, "VENDOR_URL") {
            Some(ReleaseKey::VendorUrl)
        } else if same(label, "DEFAULT_HOSTNAME") {
            Some(ReleaseKey::DefaultHostname)
        } else if same(label, "ARCHITECTURE") {
            Some(ReleaseKey::Architecture)
        } else if same(label, "SYSEXT_LEVEL") {
            Some(ReleaseKey::SysextLevel)
        } else if same(label, "CONFEXT_LEVEL") {
            Some(ReleaseKey::ConfextLevel)
        } else if same(label, "SYSEXT_SCOPE") {
            Some(ReleaseKey::SysextScope)
        } else if same(label, "CONFEXT_SCOPE") {
            Some(ReleaseKey::ConfextScope)
        } else if same(label, "PORTABLE_PREFIXES") {
            Some(ReleaseKey::PortablePrefixes)
        } else {
            None
        }
    }

    /// Whether one pair of double quotes around the value is left out.
    pub fn quoted(self) -> (r: bool)
        ensures
            r == self.is_quoted(),
    {
        match self {
            ReleaseKey::Name
            | ReleaseKey::PrettyName
            | ReleaseKey::CpeName
            | ReleaseKey::Variant
            | ReleaseKey::BuildId
            | ReleaseKey::HomeUrl
            | ReleaseKey::DocumentationUrl
            | ReleaseKey::SupportUrl
            | ReleaseKey::BugReportUrl
            | ReleaseKey::PrivacyPolicyUrl
            | ReleaseKey::AnsiColor
            | ReleaseKey::VendorUrl => true,
            _ => false,
        }
    }
}

// ---------------------------------------------------------------------------
// Model
// ---------------------------------------------------------------------------
/// What an `OsRelease` holds: for each key its value, or `None` where the
/// manifest does not have the key.
pub struct OsReleaseView {
    pub name: Option<Seq<char>>,
    pub id: Option<Seq<char>>,
    pub id_like: Option<Seq<Seq<char>>>,
    pub pretty_name: Option<Seq<char>>,
    pub cpe_name: Option<Seq<char>>,
    pub variant: Option<Seq<char>>,
    pub variant_id: Option<Seq<char>>,
    pub version: Option<Seq<char>>,
    pub version_id: Option<Seq<char>>,
    pub version_codename: Option<Seq<char>>,
    pub build_id: Option<Seq<char>>,
    pub image_id: Option<Seq<char>>,
    pub image_version: Option<Seq<char>>,
    pub home_url: Option<Seq<char>>,
    pub documentation_url: Option<Seq<char>>,
    pub support_url: Option<Seq<char>>,
    pub bug_report_url: Option<Seq<char>>,
    pub privacy_policy_url: Option<Seq<char>>,
    pub support_end: Option<Seq<char>>,
    pub logo: Option<Seq<char>>,
    pub ansi_color: Option<Seq<char>>,
    pub vendor_name: Option<Seq<char>>,
    pub vendor_url: Option<Seq<char>>,
    pub default_hostname: Option<Seq<char>>,
    pub architecture: Option<Seq<char>>,
    pub sysext_level: Option<Seq<char>>,
    pub confext_level: Option<Seq<char>>,
    pub sysext_scope: Option<Seq<char>>,
    pub confext_scope: Option<Seq<char>>,
    pub portable_prefixes: Option<Seq<Seq<char>>>,
}

/// The text that is stored for `raw`, the value of a key that is no list.
pub open spec fn text_value(key: ReleaseKey, raw: Seq<char>) -> Seq<char> {
    if key.is_quoted() {
        unquote(raw)
    } else {
        raw
    }
}

/// The words that are stored for `raw`, the value of a list key: the pieces
/// between the spaces of the value, without one pair of double quotes around
/// the whole.
pub open spec fn list_value(raw: Seq<char>) -> Seq<Seq<char>> {
    pieces(unquote(raw), ' ')
}

/// The key of `line`: what stands before its first equals sign, where that is
/// the label of a key.
pub open spec fn line_key(line: Seq<char>) -> Option<ReleaseKey> {
    match split_pair(line, '=') {
        Some((label, _)) => ReleaseKey::of_label(label),
        None => None,
    }
}

/// Whether a line of `text` has the key `key`.
pub open spec fn mentions(text: Seq<char>, key: ReleaseKey) -> bool {
    exists|i: int| 0 <= i < lines(text).len() && line_key(#[trigger] lines(text)[i]) == Some(key)
}

impl OsReleaseView {
    /// The manifest that has no key.
    pub open spec fn empty() -> OsReleaseView {
        OsReleaseView {
            name: None,
            id: None,
            id_like: None,
            pretty_name: None,
            cpe_name: None,
            variant: None,
            variant_id: None,
            version: None,
            version_id: None,
            version_codename: None,
            build_id: None,
            image_id: None,
            image_version: None,
            home_url: None,
            documentation_url: None,
            support_url: None,
            bug_report_url: None,
            privacy_policy_url: None,
            support_end: None,
            logo: None,
            ansi_color: None,
            vendor_name: None,
            vendor_url: None,
            default_hostname: None,
            architecture: None,
            sysext_level: None,
            confext_level: None,
            sysext_scope: None,
            confext_scope: None,
            portable_prefixes: None,
        }
    }

    /// Whether the field of `key` is present.
    pub open spec fn has(self, key: ReleaseKey) -> bool {
        match key {
            ReleaseKey::Name => self.name is Some,
            ReleaseKey::Id => self.id is Some,
            ReleaseKey::IdLike => self.id_like is Some,
            ReleaseKey::PrettyName => self.pretty_name is Some,
            ReleaseKey::CpeName => self.cpe_name is Some,
            ReleaseKey::Variant => self.variant is Some,
            ReleaseKey::VariantId => self.variant_id is Some,
            ReleaseKey::Version => self.version is Some,
            ReleaseKey::VersionId => self.version_id is Some,
            ReleaseKey::VersionCodename => self.version_codename is Some,
            ReleaseKey::BuildId => self.build_id is Some,
            ReleaseKey::ImageId => self.image_id is Some,
            ReleaseKey::ImageVersion => self.image_version is Some,
            ReleaseKey::HomeUrl => self.home_url is Some,
            ReleaseKey::DocumentationUrl => self.documentation_url is Some,
            ReleaseKey::SupportUrl => self.support_url is Some,
            ReleaseKey::BugReportUrl => self.bug_report_url is Some,
            ReleaseKey::PrivacyPolicyUrl => self.privacy_policy_url is Some,
            ReleaseKey::SupportEnd => self.support_end is Some,
            ReleaseKey::Logo => self.logo is Some,
            ReleaseKey::AnsiColor => self.ansi_color is Some,
            ReleaseKey::VendorName => self.vendor_name is Some,
            ReleaseKey::VendorUrl => self.vendor_url is Some,
            ReleaseKey::DefaultHostname => self.default_hostname is Some,
            ReleaseKey::Architecture => self.architecture is Some,
            ReleaseKey::SysextLevel => self.sysext_level is Some,
            ReleaseKey::ConfextLevel => self.confext_level is Some,
            ReleaseKey::SysextScope => self.sysext_scope is Some,
            ReleaseKey::ConfextScope => self.confext_scope is Some,
            ReleaseKey::PortablePrefixes => self.portable_prefixes is Some,
        }
    }

    /// The manifest after `raw` is stored as the value of `key`.
    pub open spec fn store(self, key: ReleaseKey, raw: Seq<char>) -> OsReleaseView {
        match key {
            ReleaseKey::Name => OsReleaseView {
                name: Some(text_value(key, raw)),
                ..self
            },
            ReleaseKey::Id => OsReleaseView {
                id: Some(text_value(key, raw)),
                ..self
            },
            ReleaseKey::IdLike => OsReleaseView { id_like: Some(list_value(raw)), ..self },
            ReleaseKey::PrettyName => OsReleaseView {
                pretty_name: Some(text_value(key, raw)),
                ..self
            },
            ReleaseKey::CpeName => OsReleaseView {
                cpe_name: Some(text_value(key, raw)),
                ..self
            },
            ReleaseKey::Variant => OsReleaseView {
                variant: Some(text_value(key, raw)),
                ..self
            },
            ReleaseKey::VariantId => OsReleaseView {
                variant_id: Some(text_value(key, raw)),
                ..self
            },
            ReleaseKey::Version => OsReleaseView {
                version: Some(text_value(key, raw)),
                ..self
            },
            ReleaseKey::VersionId => OsReleaseView {
                version_id: Some(text_value(key, raw)),
                ..self
            },
            ReleaseKey::VersionCodename => OsReleaseView {
                version_codename: Some(text_value(key, raw)),
                ..self
            },
            ReleaseKey::BuildId => OsReleaseView {
                build_id: Some(text_value(key, raw)),
                ..self
            },
            ReleaseKey::ImageId => OsReleaseView {
                image_id: Some(text_value(key, raw)),
                ..self
            },
            ReleaseKey::ImageVersion => OsReleaseView {
                image_version: Some(text_value(key, raw)),
                ..self
            },
            ReleaseKey::HomeUrl => OsReleaseView {
                home_url: Some(text_value(key, raw)),
                ..self
            },
            ReleaseKey::DocumentationUrl => OsReleaseView {
                documentation_url: Some(text_value(key, raw)),
                ..self
            },
            ReleaseKey::SupportUrl => OsReleaseView {
                support_url: Some(text_value(key, raw)),
                ..self
            },
            ReleaseKey::BugReportUrl => OsReleaseView {
                bug_report_url: Some(text_value(key, raw)),
                ..self
            },
            ReleaseKey::PrivacyPolicyUrl => OsReleaseView {
                privacy_policy_url: Some(text_value(key, raw)),
                ..self
            },
            ReleaseKey::SupportEnd => OsReleaseView {
                support_end: Some(text_value(key, raw)),
                ..self
            },
            ReleaseKey::Logo => OsReleaseView {
                logo: Some(text_value(key, raw)),
                ..self
            },
            ReleaseKey::AnsiColor => OsReleaseView {
                ansi_color: Some(text_value(key, raw)),
                ..self
            },
            ReleaseKey::VendorName => OsReleaseView {
                vendor_name: Some(text_value(key, raw)),
                ..self
            },
            ReleaseKey::VendorUrl => OsReleaseView {
                vendor_url: Some(text_value(key, raw)),
                ..self
            },
            ReleaseKey::DefaultHostname => OsReleaseView {
                default_hostname: Some(text_value(key, raw)),
                ..self
            },
            ReleaseKey::Architecture => OsReleaseView {
                architecture: Some(text_value(key, raw)),
                ..self
            },
            ReleaseKey::SysextLevel => OsReleaseView {
                sysext_level: Some(text_value(key, raw)),
                ..self
            },
            ReleaseKey::ConfextLevel => OsReleaseView {
                confext_level: Some(text_value(key, raw)),
                ..self
            },
            ReleaseKey::SysextScope => OsReleaseView {
                sysext_scope: Some(text_value(key, raw)),
                ..self
            },
            ReleaseKey::ConfextScope => OsReleaseView {
                confext_scope: Some(text_value(key, raw)),
                ..self
            },
            ReleaseKey::PortablePrefixes => OsReleaseView { portable_prefixes: Some(list_value(raw)), ..self },
        }
    }

    /// The manifest after `line` is read. The line is split at its first
    /// equals sign; a line without one, or with a key that has no field,
    /// changes nothing.
    pub open spec fn read(self, line: Seq<char>) -> OsReleaseView {
        match split_pair(line, '=') {
            Some((label, raw)) => match ReleaseKey::of_label(label) {
                Some(key) => self.store(key, raw),
                None => self,
            },
            None => self,
        }
    }

    /// The manifest after all of `ls` are read in order.
    pub open spec fn read_all(ls: Seq<Seq<char>>) -> OsReleaseView
        decreases ls.len(),
    {
        if ls.len() == 0 {
            OsReleaseView::empty()
        } else {
            OsReleaseView::read_all(ls.drop_last()).read(ls.last())
        }
    }

    /// The name to show: `pretty_name` where it is present, else `name`.
    pub open spec fn display_name(self) -> Option<Seq<char>> {
        if self.pretty_name is Some {
            self.pretty_name
        } else {
            self.name
        }
    }

    /// Where the icon named by `logo` is kept, where the manifest names one.
    pub open spec fn logo_path(self) -> Option<Seq<char>> {
        match self.logo {
            Some(logo) => Some("/usr/share/pixmaps/"@ + logo + ".svg"@),
            None => None,
        }
    }
}

/// What the manifest `text` holds.
pub open spec fn release_of(text: Seq<char>) -> OsReleaseView {
    OsReleaseView::read_all(lines(text))
}

/// The manifest to read: the first of the two that is there.
pub open spec fn preferred(etc: Option<Seq<char>>, usr_lib: Option<Seq<char>>) -> Option<
    Seq<char>,
> {
    if etc is Some {
        etc
    } else {
        usr_lib
    }
}

/// What reading a manifest gives: `NotFound` where there is none.
pub open spec fn release_from(contents: Option<Seq<char>>) -> Result<OsReleaseView, InfoError> {
    match contents {
        Some(text) => Ok(release_of(text)),
        None => Err(InfoError::NotFound),
    }
}

/// What was found at the path of the icon.
#[derive(Clone, Debug)]
pub enum LogoFile {
    /// No file is there.
    Missing,
    /// A file is there and could not be read.
    Unreadable,
    /// The text of the file.
    Contents(String),
}

/// The icon to hand out: none where the manifest names no logo or where no
/// file is there, an empty text where the file could not be read.
pub open spec fn logo_svg_of(logo: Option<Seq<char>>, file: LogoFile) -> Option<Seq<char>> {
    if logo is Some {
        match file {
            LogoFile::Missing => None,
            LogoFile::Unreadable => Some(Seq::empty()),
            LogoFile::Contents(svg) => Some(svg@),
        }
    } else {
        None
    }
}

// ---------------------------------------------------------------------------
// Facts
// ---------------------------------------------------------------------------
/// A text is the label of a key exactly where it is found as that key: no two
/// keys share a label.
pub proof fn lemma_label_names_key(key: ReleaseKey, label: Seq<char>)
    ensures
        ReleaseKey::of_label(label) == Some(key) <==> label == key.label(),
{
    reveal_strlit("NAME");
    reveal_strlit("ID");
    reveal_strlit("ID_LIKE");
    reveal_strlit("PRETTY_NAME");
    reveal_strlit("CPE_NAME");
    reveal_strlit("VARIANT");
    reveal_strlit("VARIANT_ID");
    reveal_strlit("VERSION");
    reveal_strlit("VERSION_ID");
    reveal_strlit("VERSION_CODENAME");
    reveal_strlit("BUILD_ID");
    reveal_strlit("IMAGE_ID");
    reveal_strlit("IMAGE_VERSION");
    reveal_strlit("HOME_URL");
    reveal_strlit("DOCUMENTATION_URL");
    reveal_strlit("SUPPORT_URL");
    reveal_strlit("BUG_REPORT_URL");
    reveal_strlit("PRIVACY_POLICY_URL");
    reveal_strlit("SUPPORT_END");
    reveal_strlit("LOGO");
    reveal_strlit("ANSI_COLOR");
    reveal_strlit("VENDOR_NAME");
    reveal_strlit("VENDOR_URL");
    reveal_strlit("DEFAULT_HOSTNAME");
    reveal_strlit("ARCHITECTURE");
    reveal_strlit("SYSEXT_LEVEL");
    reveal_strlit("CONFEXT_LEVEL");
    reveal_strlit("SYSEXT_SCOPE");
    reveal_strlit("CONFEXT_SCOPE");
    reveal_strlit("PORTABLE_PREFIXES");
    assert("NAME"@.len() == 4);
    assert("ID"@.len() == 2);
    assert("ID_LIKE"@.len() == 7);
    assert("PRETTY_NAME"@.len() == 11);
    assert("CPE_NAME"@.len() == 8);
    assert("VARIANT"@.len() == 7);
    assert("VARIANT_ID"@.len() == 10);
    assert("VERSION"@.len() == 7);
    assert("VERSION_ID"@.len() == 10);
    assert("VERSION_CODENAME"@.len() == 16);
    assert("BUILD_ID"@.len() == 8);
    assert("IMAGE_ID"@.len() == 8);
    assert("IMAGE_VERSION"@.len() == 13);
    assert("HOME_URL"@.len() == 8);
    assert("DOCUMENTATION_URL"@.len() == 17);
    assert("SUPPORT_URL"@.len() == 11);
    assert("BUG_REPORT_URL"@.len() == 14);
    assert("PRIVACY_POLICY_URL"@.len() == 18);
    assert("SUPPORT_END"@.len() == 11);
    assert("LOGO"@.len() == 4);
    assert("ANSI_COLOR"@.len() == 10);
    assert("VENDOR_NAME"@.len() == 11);
    assert("VENDOR_URL"@.len() == 10);
    assert("DEFAULT_HOSTNAME"@.len() == 16);
    assert("ARCHITECTURE"@.len() == 12);
    assert("SYSEXT_LEVEL"@.len() == 12);
    assert("CONFEXT_LEVEL"@.len() == 13);
    assert("SYSEXT_SCOPE"@.len() == 12);
    assert("CONFEXT_SCOPE"@.len() == 13);
    assert("PORTABLE_PREFIXES"@.len() == 17);
    assert("NAME"@[0] == 'N');
    assert("LOGO"@[0] == 'L');
    assert("ID_LIKE"@[0] == 'I');
    assert("ID_LIKE"@[1] == 'D');
    assert("VARIANT"@[0] == 'V');
    assert("VARIANT"@[1] == 'A');
    assert("VERSION"@[0] == 'V');
    assert("VERSION"@[1] == 'E');
    assert("PRETTY_NAME"@[0] == 'P');
    assert("PRETTY_NAME"@[8] == 'A');
    assert("SUPPORT_URL"@[0] == 'S');
    assert("SUPPORT_URL"@[8] == 'U');
    assert("SUPPORT_END"@[0] == 'S');
    assert("SUPPORT_END"@[8] == 'E');
    assert("VENDOR_NAME"@[0] == 'V');
    assert("VENDOR_NAME"@[8] == 'A');
    assert("CPE_NAME"@[0] == 'C');
    assert("BUILD_ID"@[0] == 'B');
    assert("IMAGE_ID"@[0] == 'I');
    assert("HOME_URL"@[0] == 'H');
    assert("VARIANT_ID"@[0] == 'V');
    assert("VARIANT_ID"@[1] == 'A');
    assert("VARIANT_ID"@[2] == 'R');
    assert("VERSION_ID"@[0] == 'V');
    assert("VERSION_ID"@[1] == 'E');
    assert("VERSION_ID"@[2] == 'R');
    assert("ANSI_COLOR"@[0] == 'A');
    assert("ANSI_COLOR"@[1] == 'N');
    assert("ANSI_COLOR"@[2] == 'S');
    assert("VENDOR_URL"@[0] == 'V');
    assert("VENDOR_URL"@[1] == 'E');
    assert("VENDOR_URL"@[2] == 'N');
    assert("VERSION_CODENAME"@[0] == 'V');
    assert("DEFAULT_HOSTNAME"@[0] == 'D');
    assert("IMAGE_VERSION"@[0] == 'I');
    assert("IMAGE_VERSION"@[8] == 'R');
    assert("CONFEXT_LEVEL"@[0] == 'C');
    assert("CONFEXT_LEVEL"@[8] == 'L');
    assert("CONFEXT_SCOPE"@[0] == 'C');
    assert("CONFEXT_SCOPE"@[8] == 'S');
    assert("DOCUMENTATION_URL"@[0] == 'D');
    assert("PORTABLE_PREFIXES"@[0] == 'P');
    assert("ARCHITECTURE"@[0] == 'A');
    assert("ARCHITECTURE"@[7] == 'C');
    assert("SYSEXT_LEVEL"@[0] == 'S');
    assert("SYSEXT_LEVEL"@[7] == 'L');
    assert("SYSEXT_SCOPE"@[0] == 'S');
    assert("SYSEXT_SCOPE"@[7] == 'S');
}

/// Storing a value makes the field of its key present and leaves the
/// presence of every other field as it was.
pub proof fn lemma_store_has(v: OsReleaseView, stored: ReleaseKey, raw: Seq<char>, key: ReleaseKey)
    ensures
        v.store(stored, raw).has(key) <==> (stored == key || v.has(key)),
{
}

/// After reading lines, a field is present exactly where one of the lines has
/// its key.
pub proof fn lemma_read_has(ls: Seq<Seq<char>>, key: ReleaseKey)
    ensures
        OsReleaseView::read_all(ls).has(key) <==> exists|i: int|
            0 <= i < ls.len() && line_key(#[trigger] ls[i]) == Some(key),
    decreases ls.len(),
{
    if ls.len() > 0 {
        let front = ls.drop_last();
        let before = OsReleaseView::read_all(front);
        lemma_read_has(front, key);
        match split_pair(ls.last(), '=') {
            Some((label, raw)) => match ReleaseKey::of_label(label) {
                Some(stored) => {
                    lemma_store_has(before, stored, raw, key);
                },
                None => {},
            },
            None => {},
        }
        if OsReleaseView::read_all(ls).has(key) {
            if line_key(ls.last()) == Some(key) {
                assert(line_key(ls[ls.len() - 1]) == Some(key));
            } else {
                let i = choose|i: int|
                    0 <= i < front.len() && line_key(#[trigger] front[i]) == Some(key);
                assert(ls[i] == front[i]);
            }
        }
        if exists|i: int| 0 <= i < ls.len() && line_key(#[trigger] ls[i]) == Some(key) {
            let i = choose|i: int| 0 <= i < ls.len() && line_key(#[trigger] ls[i]) == Some(key);
            if i < front.len() {
                assert(front[i] == ls[i]);
            }
        }
    }
}

/// A field of a manifest is present exactly where a line of the text has its
/// key: a key that the text does not have is never read as an empty value.
pub proof fn lemma_present_iff_mentioned(text: Seq<char>, key: ReleaseKey)
    ensures
        release_of(text).has(key) <==> mentions(text, key),
{
    lemma_read_has(lines(text), key);
}

/// Whether `line` gives a value to `label`: whether `label` is what stands
/// before its first equals sign.
pub open spec fn gives(line: Seq<char>, label: Seq<char>) -> bool {
    split_pair(line, '=') matches Some((before, _)) && before == label
}

/// A field of a manifest is present exactly where a line of the text gives a
/// value to the label of its key.
pub proof fn lemma_present_iff_given(text: Seq<char>, key: ReleaseKey)
    ensures
        release_of(text).has(key) <==> exists|i: int|
            0 <= i < lines(text).len() && gives(#[trigger] lines(text)[i], key.label()),
{
    let ls = lines(text);
    lemma_read_has(ls, key);
    if release_of(text).has(key) {
        let i = choose|i: int| 0 <= i < ls.len() && line_key(#[trigger] ls[i]) == Some(key);
        lemma_label_names_key(key, split_pair(ls[i], '=')->Some_0.0);
        assert(gives(ls[i], key.label()));
    }
    if exists|i: int| 0 <= i < ls.len() && gives(#[trigger] ls[i], key.label()) {
        let i = choose|i: int| 0 <= i < ls.len() && gives(#[trigger] ls[i], key.label());
        lemma_label_names_key(key, key.label());
        assert(line_key(ls[i]) == Some(key));
    }
}

// ---------------------------------------------------------------------------
// The manifest
// ---------------------------------------------------------------------------
/// The fields of an `os-release` manifest. A field is `None` unless the
/// manifest has its key.
#[derive(Clone, Debug)]
pub struct OsRelease {
    name: Option<String>,
    id: Option<String>,
    id_like: Option<Vec<String>>,
    pretty_name: Option<String>,
    cpe_name: Option<String>,
    variant: Option<String>,
    variant_id: Option<String>,
    version: Option<String>,
    version_id: Option<String>,
    version_codename: Option<String>,
    build_id: Option<String>,
    image_id: Option<String>,
    image_version: Option<String>,
    home_url: Option<String>,
    documentation_url: Option<String>,
    support_url: Option<String>,
    bug_report_url: Option<String>,
    privacy_policy_url: Option<String>,
    support_end: Option<String>,
    logo: Option<String>,
    ansi_color: Option<String>,
    vendor_name: Option<String>,
    vendor_url: Option<String>,
    default_hostname: Option<String>,
    architecture: Option<String>,
    sysext_level: Option<String>,
    confext_level: Option<String>,
    sysext_scope: Option<String>,
    confext_scope: Option<String>,
    portable_prefixes: Option<Vec<String>>,
}

impl View for OsRelease {
    type V = OsReleaseView;

    closed spec fn view(&self) -> OsReleaseView {
        OsReleaseView {
            name: owned_text_of(self.name),
            id: owned_text_of(self.id),
            id_like: owned_texts_of(self.id_like),
            pretty_name: owned_text_of(self.pretty_name),
            cpe_name: owned_text_of(self.cpe_name),
            variant: owned_text_of(self.variant),
            variant_id: owned_text_of(self.variant_id),
            version: owned_text_of(self.version),
            version_id: owned_text_of(self.version_id),
            version_codename: owned_text_of(self.version_codename),
            build_id: owned_text_of(self.build_id),
            image_id: owned_text_of(self.image_id),
            image_version: owned_text_of(self.image_version),
            home_url: owned_text_of(self.home_url),
            documentation_url: owned_text_of(self.documentation_url),
            support_url: owned_text_of(self.support_url),
            bug_report_url: owned_text_of(self.bug_report_url),
            privacy_policy_url: owned_text_of(self.privacy_policy_url),
            support_end: owned_text_of(self.support_end),
            logo: owned_text_of(self.logo),
            ansi_color: owned_text_of(self.ansi_color),
            vendor_name: owned_text_of(self.vendor_name),
            vendor_url: owned_text_of(self.vendor_url),
            default_hostname: owned_text_of(self.default_hostname),
            architecture: owned_text_of(self.architecture),
            sysext_level: owned_text_of(self.sysext_level),
            confext_level: owned_text_of(self.confext_level),
            sysext_scope: owned_text_of(self.sysext_scope),
            confext_scope: owned_text_of(self.confext_scope),
            portable_prefixes: owned_texts_of(self.portable_prefixes),
        }
    }
}

/// What `r` holds, as a model.
pub open spec fn outcome(r: Result<OsRelease, InfoError>) -> Result<OsReleaseView, InfoError> {
    match r {
        Ok(release) => Ok(release@),
        Err(e) => Err(e),
    }
}

impl OsRelease {
    /// The manifest that has no key.
    fn new() -> (r: OsRelease)
        ensures
            r@ == OsReleaseView::empty(),
    {
        OsRelease {
            name: None,
            id: None,
            id_like: None,
            pretty_name: None,
            cpe_name: None,
            variant: None,
            variant_id: None,
            version: None,
            version_id: None,
            version_codename: None,
            build_id: None,
            image_id: None,
            image_version: None,
            home_url: None,
            documentation_url: None,
            support_url: None,
            bug_report_url: None,
            privacy_policy_url: None,
            support_end: None,
            logo: None,
            ansi_color: None,
            vendor_name: None,
            vendor_url: None,
            default_hostname: None,
            architecture: None,
            sysext_level: None,
            confext_level: None,
            sysext_scope: None,
            confext_scope: None,
            portable_prefixes: None,
        }
    }

    /// Stores `raw` as the value of `key`.
    fn store(&mut self, key: ReleaseKey, raw: &Vec<char>)
        ensures
            final(self)@ == old(self)@.store(key, raw@),
    {
        if key == ReleaseKey::IdLike || key == ReleaseKey::PortablePrefixes {
            let words = to_texts(&split(&unquoted(raw), ' '));
            if key == ReleaseKey::IdLike {
                self.id_like = Some(words);
            } else {
                self.portable_prefixes = Some(words);
            }
        } else {
            let text = if key.quoted() {
                to_text(&unquoted(raw))
            } else {
                to_text(raw)
            };
            match key {
                ReleaseKey::Name => {
                    self.name = Some(text);
                },
                ReleaseKey::Id => {
                    self.id = Some(text);
                },
                ReleaseKey::PrettyName => {
                    self.pretty_name = Some(text);
                },
                ReleaseKey::CpeName => {
                    self.cpe_name = Some(text);
                },
                ReleaseKey::Variant => {
                    self.variant = Some(text);
                },
                ReleaseKey::VariantId => {
                    self.variant_id = Some(text);
                },
                ReleaseKey::Version => {
                    self.version = Some(text);
                },
                ReleaseKey::VersionId => {
                    self.version_id = Some(text);
                },
                ReleaseKey::VersionCodename => {
                    self.version_codename = Some(text);
                },
                ReleaseKey::BuildId => {
                    self.build_id = Some(text);
                },
                ReleaseKey::ImageId => {
                    self.image_id = Some(text);
                },
                ReleaseKey::ImageVersion => {
                    self.image_version = Some(text);
                },
                ReleaseKey::HomeUrl => {
                    self.home_url = Some(text);
                },
                ReleaseKey::DocumentationUrl => {
                    self.documentation_url = Some(text);
                },
                ReleaseKey::SupportUrl => {
                    self.support_url = Some(text);
                },
                ReleaseKey::BugReportUrl => {
                    self.bug_report_url = Some(text);
                },
                ReleaseKey::PrivacyPolicyUrl => {
                    self.privacy_policy_url = Some(text);
                },
                ReleaseKey::SupportEnd => {
                    self.support_end = Some(text);
                },
                ReleaseKey::Logo => {
                    self.logo = Some(text);
                },
                ReleaseKey::AnsiColor => {
                    self.ansi_color = Some(text);
                },
                ReleaseKey::VendorName => {
                    self.vendor_name = Some(text);
                },
                ReleaseKey::VendorUrl => {
                    self.vendor_url = Some(text);
                },
                ReleaseKey::DefaultHostname => {
                    self.default_hostname = Some(text);
                },
                ReleaseKey::Architecture => {
                    self.architecture = Some(text);
                },
                ReleaseKey::SysextLevel => {
                    self.sysext_level = Some(text);
                },
                ReleaseKey::ConfextLevel => {
                    self.confext_level = Some(text);
                },
                ReleaseKey::SysextScope => {
                    self.sysext_scope = Some(text);
                },
                ReleaseKey::ConfextScope => {
                    self.confext_scope = Some(text);
                },
                ReleaseKey::IdLike | ReleaseKey::PortablePrefixes => {},
            }
        }
    }

    /// Reads the text of a manifest, line by line. A later line with the same
    /// key replaces what an earlier one stored.
    pub fn parse_all(text: &str) -> (r: OsRelease)
        ensures
            r@ == release_of(text@),
            forall|key: ReleaseKey| r@.has(key) <==> mentions(text@, key),
    {
        let chars = to_chars(text);
        let ls = split_lines(&chars);
        let ghost all = rows(ls@);
        let mut release = OsRelease::new();
        assert(all.take(0) =~= Seq::<Seq<char>>::empty());
        let mut i: usize = 0;
        while i < ls.len()
            invariant
                i <= ls@.len(),
                all == rows(ls@),
                release@ == OsReleaseView::read_all(all.take(i as int)),
            decreases ls@.len() - i,
        {
            proof {
                assert(all.take(i + 1).drop_last() =~= all.take(i as int));
                assert(all.take(i + 1).last() == ls@[i as int]@);
            }
            match split_once(&ls[i], '=') {
                Some((label, raw)) => {
                    match ReleaseKey::from_label(&label) {
                        Some(key) => {
                            release.store(key, &raw);
                        },
                        None => {},
                    }
                },
                None => {},
            }
            i += 1;
        }
        proof {
            assert(all.take(ls@.len() as int) =~= all);
            assert forall|key: ReleaseKey| release@.has(key) <==> mentions(text@, key) by {
                lemma_present_iff_mentioned(text@, key);
            }
        }
        release
    }

    /// Reads the manifest of this system from what was found at
    /// `ETC_OS_RELEASE` and at `USR_LIB_OS_RELEASE`, each `None` where no file
    /// is there: the first is read where it is there, else the second, and
    /// where neither is there the failure is `NotFound`.
    pub fn parse(etc: Option<&str>, usr_lib: Option<&str>) -> (r: Result<OsRelease, InfoError>)
        ensures
            outcome(r) == release_from(preferred(text_of(etc), text_of(usr_lib))),
            r is Err <==> etc is None && usr_lib is None,
    {
        match etc {
            Some(text) => Ok(OsRelease::parse_all(text)),
            None => match usr_lib {
                Some(text) => Ok(OsRelease::parse_all(text)),
                None => Err(InfoError::NotFound),
            },
        }
    }

    /// Reads a manifest from what was found at a path of the caller's choice:
    /// `None` where no file is there, which is the failure `NotFound`.
    pub fn parse_file(contents: Option<&str>) -> (r: Result<OsRelease, InfoError>)
        ensures
            outcome(r) == release_from(text_of(contents)),
            r is Err <==> contents is None,
    {
        match contents {
            Some(text) => Ok(OsRelease::parse_all(text)),
            None => Err(InfoError::NotFound),
        }
    }

    /// The name of the operating system.
    pub fn name(&self) -> (r: &Option<String>)
        ensures
            owned_text_of(*r) == self@.name,
    {
        &self.name
    }

    /// The identifier of the operating system.
    pub fn id(&self) -> (r: &Option<String>)
        ensures
            owned_text_of(*r) == self@.id,
    {
        &self.id
    }

    /// The identifiers of the systems that this one is derived from.
    pub fn id_like(&self) -> (r: &Option<Vec<String>>)
        ensures
            owned_texts_of(*r) == self@.id_like,
    {
        &self.id_like
    }

    /// The name of the operating system as it is shown to users.
    pub fn pretty_name(&self) -> (r: &Option<String>)
        ensures
            owned_text_of(*r) == self@.pretty_name,
    {
        &self.pretty_name
    }

    /// The CPE name of the operating system.
    pub fn cpe_name(&self) -> (r: &Option<String>)
        ensures
            owned_text_of(*r) == self@.cpe_name,
    {
        &self.cpe_name
    }

    /// The variant or edition of the operating system.
    pub fn variant(&self) -> (r: &Option<String>)
        ensures
            owned_text_of(*r) == self@.variant,
    {
        &self.variant
    }

    /// The identifier of the variant.
    pub fn variant_id(&self) -> (r: &Option<String>)
        ensures
            owned_text_of(*r) == self@.variant_id,
    {
        &self.variant_id
    }

    /// The version, with any release code name.
    pub fn version(&self) -> (r: &Option<String>)
        ensures
            owned_text_of(*r) == self@.version,
    {
        &self.version
    }

    /// The identifier of the version.
    pub fn version_id(&self) -> (r: &Option<String>)
        ensures
            owned_text_of(*r) == self@.version_id,
    {
        &self.version_id
    }

    /// The code name of the release.
    pub fn version_codename(&self) -> (r: &Option<String>)
        ensures
            owned_text_of(*r) == self@.version_codename,
    {
        &self.version_codename
    }

    /// The identifier of the system image that was installed.
    pub fn build_id(&self) -> (r: &Option<String>)
        ensures
            owned_text_of(*r) == self@.build_id,
    {
        &self.build_id
    }

    /// The identifier of the image.
    pub fn image_id(&self) -> (r: &Option<String>)
        ensures
            owned_text_of(*r) == self@.image_id,
    {
        &self.image_id
    }

    /// The version of the image.
    pub fn image_version(&self) -> (r: &Option<String>)
        ensures
            owned_text_of(*r) == self@.image_version,
    {
        &self.image_version
    }

    /// The home page of the operating system.
    pub fn home_url(&self) -> (r: &Option<String>)
        ensures
            owned_text_of(*r) == self@.home_url,
    {
        &self.home_url
    }

    /// Where the documentation is found.
    pub fn documentation_url(&self) -> (r: &Option<String>)
        ensures
            owned_text_of(*r) == self@.documentation_url,
    {
        &self.documentation_url
    }

    /// Where support is offered.
    pub fn support_url(&self) -> (r: &Option<String>)
        ensures
            owned_text_of(*r) == self@.support_url,
    {
        &self.support_url
    }

    /// Where bugs are reported.
    pub fn bug_report_url(&self) -> (r: &Option<String>)
        ensures
            owned_text_of(*r) == self@.bug_report_url,
    {
        &self.bug_report_url
    }

    /// Where the privacy policy is found.
    pub fn privacy_policy_url(&self) -> (r: &Option<String>)
        ensures
            owned_text_of(*r) == self@.privacy_policy_url,
    {
        &self.privacy_policy_url
    }

    /// The date at which support ends.
    pub fn support_end(&self) -> (r: &Option<String>)
        ensures
            owned_text_of(*r) == self@.support_end,
    {
        &self.support_end
    }

    /// The name of the icon of the operating system.
    pub fn logo(&self) -> (r: &Option<String>)
        ensures
            owned_text_of(*r) == self@.logo,
    {
        &self.logo
    }

    /// The colour in which the name is shown on a console.
    pub fn ansi_color(&self) -> (r: &Option<String>)
        ensures
            owned_text_of(*r) == self@.ansi_color,
    {
        &self.ansi_color
    }

    /// The name of the vendor.
    pub fn vendor_name(&self) -> (r: &Option<String>)
        ensures
            owned_text_of(*r) == self@.vendor_name,
    {
        &self.vendor_name
    }

    /// The home page of the vendor.
    pub fn vendor_url(&self) -> (r: &Option<String>)
        ensures
            owned_text_of(*r) == self@.vendor_url,
    {
        &self.vendor_url
    }

    /// The host name that is used where none is set.
    pub fn default_hostname(&self) -> (r: &Option<String>)
        ensures
            owned_text_of(*r) == self@.default_hostname,
    {
        &self.default_hostname
    }

    /// The processor architecture that the system was built for.
    pub fn architecture(&self) -> (r: &Option<String>)
        ensures
            owned_text_of(*r) == self@.architecture,
    {
        &self.architecture
    }

    /// The level of system extensions that the system supports.
    pub fn sysext_level(&self) -> (r: &Option<String>)
        ensures
            owned_text_of(*r) == self@.sysext_level,
    {
        &self.sysext_level
    }

    /// The level of configuration extensions that the system supports.
    pub fn confext_level(&self) -> (r: &Option<String>)
        ensures
            owned_text_of(*r) == self@.confext_level,
    {
        &self.confext_level
    }

    /// Where system extensions apply.
    pub fn sysext_scope(&self) -> (r: &Option<String>)
        ensures
            owned_text_of(*r) == self@.sysext_scope,
    {
        &self.sysext_scope
    }

    /// Where configuration extensions apply.
    pub fn confext_scope(&self) -> (r: &Option<String>)
        ensures
            owned_text_of(*r) == self@.confext_scope,
    {
        &self.confext_scope
    }

    /// The prefixes of the portable services that match the image.
    pub fn portable_prefixes(&self) -> (r: &Option<Vec<String>>)
        ensures
            owned_texts_of(*r) == self@.portable_prefixes,
    {
        &self.portable_prefixes
    }

    /// The name to show: `pretty_name` where it is present, else `name`, else
    /// nothing.
    pub fn get_name(&self) -> (r: &Option<String>)
        ensures
            owned_text_of(*r) == self@.display_name(),
    {
        if !self.pretty_name.is_none() {
            &self.pretty_name
        } else {
            &self.name
        }
    }

    /// Where the icon named by `logo` is kept: `/usr/share/pixmaps/`, the
    /// name, and `.svg`. `None` where the manifest names no logo.
    pub fn logo_path(&self) -> (r: Option<String>)
        ensures
            owned_text_of(r) == self@.logo_path(),
    {
        match &self.logo {
            Some(logo) => {
                let mut path = String::from_str("/usr/share/pixmaps/");
                path.append(logo.as_str());
                path.append(".svg");
                Some(path)
            },
            None => None,
        }
    }

    /// The icon of the operating system, given what was found at
    /// `logo_path()`. Nothing where the manifest names no logo or no file is
    /// there; an empty text, not a failure, where the file could not be read.
    pub fn get_logo_svg(&self, file: LogoFile) -> (r: Option<String>)
        ensures
            owned_text_of(r) == logo_svg_of(self@.logo, file),
    {
        if self.logo.is_some() {
            match file {
                LogoFile::Missing => None,
                LogoFile::Unreadable => Some(String::new()),
                LogoFile::Contents(svg) => Some(svg),
            }
        } else {
            None
        }
    }
}

} // verus!
