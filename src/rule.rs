//! The text of the rule file and the device path of an interface.
use vstd::prelude::*;
use vstd::string::*;

verus! {

/// Where the rule file lives on a running system.
pub const RULE_PATH: &'static str = "/etc/udev/rules.d/98-sriov-operator.rules";

/// The udev property that the rule sets, and that is read back afterwards.
pub const PROPERTY_KEY: &'static str = "NM_SRIOV_UNMANAGED";

/// The one line of the rule file for interface `name`: it matches the
/// interface by its exact name and sets the property to "1". The name is
/// put in as it is, with no escaping.
pub open spec fn rule_line(name: Seq<char>) -> Seq<char> {
    "ENV{INTERFACE}==\""@ + name + "\", ENV{NM_SRIOV_UNMANAGED}=\"1\""@
}

/// The sysfs path of the network interface `name`.
pub open spec fn sys_path(name: Seq<char>) -> Seq<char> {
    "/sys/class/net/"@ + name
}

/// Builds the content of the rule file for `name`.
pub fn rule_content(name: &str) -> (r: String)
    ensures
        r@ == rule_line(name@),
{
    let mut r = String::from_str("ENV{INTERFACE}==\"");
    r.append(name);
    r.append("\", ENV{NM_SRIOV_UNMANAGED}=\"1\"");
    r
}

/// Builds the sysfs path of the network interface `name`.
pub fn device_sys_path(name: &str) -> (r: String)
    ensures
        r@ == sys_path(name@),
{
    let mut r = String::from_str("/sys/class/net/");
    r.append(name);
    r
}

} // verus!
