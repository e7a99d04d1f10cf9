use vstd::prelude::*;

verus! {

/// How an installer is run: `.msi` packages through PowerShell `Start-Process`, others through `cmd /C`.
#[derive(Debug, Clone, Copy, PartialEq, Eq, Structural)]
pub enum InstallerType {
    MSI,
    EXE,
}

} // verus!
