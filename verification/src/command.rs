//! The command lines that the plugin hands to its host, and the commands of
//! the remote shell that it publishes to another device.
use vstd::prelude::*;

verus! {

/// `send plugin logs add '<entry>'`: adds an (encrypted) entry to the log.
pub fn logs_add_command(entry: &str) -> (cmd: String)
    ensures
        cmd@ == "send plugin logs add '"@ + entry@ + "'"@,
{
    let mut cmd = String::from_str("send plugin logs add '");
    cmd.append(entry);
    cmd.append("'");
    cmd
}

/// `action plugin devinfo update '<json>'`: updates the device-information
/// table with a JSON record.
pub fn devinfo_update_command(json: &str) -> (cmd: String)
    ensures
        cmd@ == "action plugin devinfo update '"@ + json@ + "'"@,
{
    let mut cmd = String::from_str("action plugin devinfo update '");
    cmd.append(json);
    cmd.append("'");
    cmd
}

/// `restart plugin mqtt`: asks the host to restart this plugin.
pub fn restart_command() -> (cmd: String)
    ensures
        cmd@ == "restart plugin mqtt"@,
{
    String::from_str("restart plugin mqtt")
}

/// `action plugin command dest '<device>'`: tells a remote device where to
/// send the output of its shell.
pub fn shell_dest_command(device: &str) -> (cmd: String)
    ensures
        cmd@ == "action plugin command dest '"@ + device@ + "'"@,
{
    let mut cmd = String::from_str("action plugin command dest '");
    cmd.append(device);
    cmd.append("'");
    cmd
}

/// `action plugin command shell start`: opens a remote shell.
pub fn shell_start_command() -> (cmd: String)
    ensures
        cmd@ == "action plugin command shell start"@,
{
    String::from_str("action plugin command shell start")
}

/// `action plugin command cmd '<input>'`: runs one line in the remote shell.
pub fn shell_cmd_command(input: &str) -> (cmd: String)
    ensures
        cmd@ == "action plugin command cmd '"@ + input@ + "'"@,
{
    let mut cmd = String::from_str("action plugin command cmd '");
    cmd.append(input);
    cmd.append("'");
    cmd
}

/// `action plugin command shell stop`: closes the remote shell.
pub fn shell_stop_command() -> (cmd: String)
    ensures
        cmd@ == "action plugin command shell stop"@,
{
    String::from_str("action plugin command shell stop")
}

} // verus!
