use sys_info::error::InfoError;
use sys_info::linux::gui::{desktop_environment, session_type, DESKTOP_VARIABLE, SESSION_VARIABLE};
use sys_info::linux::kernel::{kernel_version, ARCH_PATH, OSRELEASE_PATH};
use sys_info::linux::network::HOSTNAME_PATH;
use sys_info::{arch, hostname, processor_name, processor_name_from};

#[test]
fn hostname_loses_one_line_feed() {
    assert_eq!(hostname(Some("box\n")), Ok("box".to_string()));
    assert_eq!(hostname(Some("box")), Ok("box".to_string()));
    assert_eq!(hostname(Some("box\n\n")), Ok("box\n".to_string()));
    assert_eq!(hostname(Some("\n")), Ok(String::new()));
    assert_eq!(hostname(Some("")), Ok(String::new()));
    assert_eq!(hostname(Some("box \r\n")), Ok("box \r".to_string()));
    assert_eq!(sys_info::linux::network::hostname(Some("höst\n")), Ok("höst".to_string()));
    assert_eq!(HOSTNAME_PATH, "/proc/sys/kernel/hostname");
}

#[test]
fn missing_hostname_is_not_found() {
    assert_eq!(hostname(None), Err(InfoError::NotFound));
    assert_eq!(sys_info::linux::network::hostname(None), Err(InfoError::NotFound));
}

#[test]
fn kernel_files_are_handed_on_as_they_stand() {
    assert_eq!(kernel_version(Some("6.8.0-45-generic\n")), Ok("6.8.0-45-generic\n".to_string()));
    assert_eq!(kernel_version(Some("")), Ok(String::new()));
    assert_eq!(kernel_version(None), Err(InfoError::NotFound));
    assert_eq!(arch(Some("x86_64\n")), Ok("x86_64\n".to_string()));
    assert_eq!(arch(None), Err(InfoError::NotFound));
    assert_eq!(sys_info::linux::kernel::arch(Some("riscv64")), Ok("riscv64".to_string()));
    assert_eq!(sys_info::linux::kernel::arch(None), Err(InfoError::NotFound));
    assert_eq!(OSRELEASE_PATH, "/proc/sys/kernel/osrelease");
    assert_eq!(ARCH_PATH, "/proc/sys/kernel/arch");
}

#[test]
fn unset_session_variables_are_unknown() {
    assert_eq!(desktop_environment(Some("GNOME".to_string())), "GNOME");
    assert_eq!(desktop_environment(Some(String::new())), "");
    assert_eq!(desktop_environment(None), "Unknown");
    assert_eq!(session_type(Some("wayland".to_string())), "wayland");
    assert_eq!(session_type(None), "Unknown");
    assert_eq!(DESKTOP_VARIABLE, "XDG_CURRENT_DESKTOP");
    assert_eq!(SESSION_VARIABLE, "XDG_SESSION_TYPE");
}

#[test]
fn processor_name_from_brand() {
    assert_eq!(
        processor_name_from(Some("11th Gen Intel(R) Core(TM) i7-1165G7 @ 2.80GHz".to_string())),
        "11th Gen Intel(R) Core(TM) i7-1165G7 @ 2.80GHz"
    );
    assert_eq!(processor_name_from(Some(String::new())), "");
    assert_eq!(processor_name_from(None), "Unknown");
}

#[test]
fn processor_name_of_this_machine() {
    let name = processor_name();
    assert!(name.chars().count() <= 48);
    assert_eq!(name, name.trim());
    assert_eq!(name, processor_name());
}
