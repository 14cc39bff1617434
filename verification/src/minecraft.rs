//! Starting the installed Minecraft through its desktop package.
use vstd::prelude::*;

use crate::paths::{join_path, spec_join_path};

verus! {

/// The game's executable in its install directory.
pub fn minecraft_executable_path(installed_path: &str) -> (r: String)
    ensures
        r@ == spec_join_path(installed_path@, "Minecraft.Windows.exe"@),
{
    join_path(installed_path, "Minecraft.Windows.exe")
}

/// The PowerShell command that runs the executable inside Minecraft's
/// desktop package.
pub fn minecraft_bootstrap_command(executable: &str) -> (r: String)
    ensures
        r@ == "Invoke-CommandInDesktopPackage -PackageFamilyName 'Microsoft.MinecraftUWP_8wekyb3d8bbwe' -AppId 'Game' -Command '"@
            + executable@ + "'"@,
{
    let mut command = String::from_str(
        "Invoke-CommandInDesktopPackage -PackageFamilyName 'Microsoft.MinecraftUWP_8wekyb3d8bbwe' -AppId 'Game' -Command '",
    );
    command.append(executable);
    command.append("'");
    command
}

} // verus!
