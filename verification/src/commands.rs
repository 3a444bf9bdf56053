use vstd::prelude::*;

verus! {

/// Identity of one diagnostic check: a closed enumeration of everything the
/// preflight validation can probe for.
#[derive(Eq, PartialEq, Hash, Debug, Copy, Clone, Structural)]
pub enum CmdOp {
    AccessToGHRC,
    DockerInstalled,
    BuildxInstalled,
    BubblewrapInstalled,
    KubernetesRunning,
    DockerRunning,
    KubectlInstalled,
    CargoMakeInstalled,
    CargoVetInstalled,
    CargoACLInstalled,
    CargoDenyInstalled,
}

/// The subset of checks that probe for cargo helper binaries.
#[derive(Eq, PartialEq, Hash, Debug, Copy, Clone, Structural)]
pub enum CargoOp {
    CargoMakeInstalled,
    CargoVetInstalled,
    CargoACLInstalled,
    CargoDenyInstalled,
}

/// What the one-shot installer can be asked to set up.
#[derive(Eq, PartialEq, Hash, Debug, Copy, Clone, Structural)]
pub enum CmdInstall {
    CargoDeps,
}

impl CmdOp {
    /// The display name of this check, as it appears in report lines.
    pub open spec fn spec_name(self) -> Seq<char> {
        match self {
            CmdOp::AccessToGHRC => "AccessToGHRC"@,
            CmdOp::DockerInstalled => "DockerInstalled"@,
            CmdOp::BuildxInstalled => "BuildxInstalled"@,
            CmdOp::BubblewrapInstalled => "BubblewrapInstalled"@,
            CmdOp::KubernetesRunning => "KubernetesRunning"@,
            CmdOp::DockerRunning => "DockerRunning"@,
            CmdOp::KubectlInstalled => "KubectlInstalled"@,
            CmdOp::CargoMakeInstalled => "CargoMakeInstalled"@,
            CmdOp::CargoVetInstalled => "CargoVetInstalled"@,
            CmdOp::CargoACLInstalled => "CargoACLInstalled"@,
            CmdOp::CargoDenyInstalled => "CargoDenyInstalled"@,
        }
    }

    /// The display name of this check.
    pub fn name(self) -> (r: &'static str)
        ensures
            r@ == self.spec_name(),
    {
        match self {
            CmdOp::AccessToGHRC => "AccessToGHRC",
            CmdOp::DockerInstalled => "DockerInstalled",
            CmdOp::BuildxInstalled => "BuildxInstalled",
            CmdOp::BubblewrapInstalled => "BubblewrapInstalled",
            CmdOp::KubernetesRunning => "KubernetesRunning",
            CmdOp::DockerRunning => "DockerRunning",
            CmdOp::KubectlInstalled => "KubectlInstalled",
            CmdOp::CargoMakeInstalled => "CargoMakeInstalled",
            CmdOp::CargoVetInstalled => "CargoVetInstalled",
            CmdOp::CargoACLInstalled => "CargoACLInstalled",
            CmdOp::CargoDenyInstalled => "CargoDenyInstalled",
        }
    }
}

/// The checks of the standard catalog, in their declared order. This order
/// is the stable key a rendered report is sorted by.
pub open spec fn spec_cmd_ops() -> Seq<CmdOp> {
    seq![
        CmdOp::BubblewrapInstalled,
        CmdOp::DockerInstalled,
        CmdOp::BuildxInstalled,
        CmdOp::DockerRunning,
        CmdOp::KubectlInstalled,
        CmdOp::KubernetesRunning,
        CmdOp::CargoMakeInstalled,
        CmdOp::CargoVetInstalled,
        CmdOp::CargoACLInstalled,
        CmdOp::CargoDenyInstalled,
    ]
}

/// The standard catalog of checks, in declared order. Every listed check
/// carries a probe command and a remediation suggestion.
pub fn cmd_ops() -> (r: Vec<CmdOp>)
    ensures
        r@ == spec_cmd_ops(),
        forall|i: int| 0 <= i < r@.len() ==> spec_cmd_op_exec(#[trigger] r@[i]) is Some,
{
    let mut v: Vec<CmdOp> = Vec::new();
    v.push(CmdOp::BubblewrapInstalled);
    v.push(CmdOp::DockerInstalled);
    v.push(CmdOp::BuildxInstalled);
    v.push(CmdOp::DockerRunning);
    v.push(CmdOp::KubectlInstalled);
    v.push(CmdOp::KubernetesRunning);
    v.push(CmdOp::CargoMakeInstalled);
    v.push(CmdOp::CargoVetInstalled);
    v.push(CmdOp::CargoACLInstalled);
    v.push(CmdOp::CargoDenyInstalled);
    proof {
        assert(v@ =~= spec_cmd_ops());
    }
    v
}

/// The probe command and remediation suggestion of a check, or `None` for a
/// check that the catalog does not carry an entry for.
pub open spec fn spec_cmd_op_exec(op: CmdOp) -> Option<(Seq<char>, Seq<char>)> {
    match op {
        CmdOp::AccessToGHRC => None,
        CmdOp::BubblewrapInstalled => Some(
            ("apt list | grep bubblewrap"@, "sudo apt install -y bubblewrap"@),
        ),
        CmdOp::DockerInstalled => Some(("docker --help"@, "install docker"@)),
        CmdOp::BuildxInstalled => Some(("docker buildx --help"@, "install buildx"@)),
        CmdOp::DockerRunning => Some(("docker ps"@, "start docker"@)),
        CmdOp::KubectlInstalled => Some(("kubectl --help"@, "install kubernetes"@)),
        CmdOp::KubernetesRunning => Some(("kubectl get nodes"@, "start kubernetes"@)),
        CmdOp::CargoMakeInstalled => Some(
            ("find \"$PWD/.bin\" -name \"cargo-make\""@, "run 'dappctl install --cargo'"@),
        ),
        CmdOp::CargoVetInstalled => Some(
            ("find \"$PWD/.bin\" -name \"cargo-vet\""@, "run 'dappctl install --cargo'"@),
        ),
        CmdOp::CargoACLInstalled => Some(
            ("find \"$PWD/.bin\" -name \"cargo-acl\""@, "run 'dappctl install --cargo'"@),
        ),
        CmdOp::CargoDenyInstalled => Some(
            ("find \"$PWD/.bin\" -name \"cargo-deny\""@, "run 'dappctl install --cargo'"@),
        ),
    }
}

/// The probe command and remediation suggestion of a check, or `None` for a
/// check outside the catalog.
pub fn cmd_op_exec(op: CmdOp) -> (r: Option<(&'static str, &'static str)>)
    ensures
        r is Some <==> spec_cmd_op_exec(op) is Some,
        r matches Some(p) ==> spec_cmd_op_exec(op) matches Some(q) && p.0@ == q.0 && p.1@
            == q.1,
{
    match op {
        CmdOp::AccessToGHRC => None,
        CmdOp::BubblewrapInstalled => Some(
            ("apt list | grep bubblewrap", "sudo apt install -y bubblewrap"),
        ),
        CmdOp::DockerInstalled => Some(("docker --help", "install docker")),
        CmdOp::BuildxInstalled => Some(("docker buildx --help", "install buildx")),
        CmdOp::DockerRunning => Some(("docker ps", "start docker")),
        CmdOp::KubectlInstalled => Some(("kubectl --help", "install kubernetes")),
        CmdOp::KubernetesRunning => Some(("kubectl get nodes", "start kubernetes")),
        CmdOp::CargoMakeInstalled => Some(
            ("find \"$PWD/.bin\" -name \"cargo-make\"", "run 'dappctl install --cargo'"),
        ),
        CmdOp::CargoVetInstalled => Some(
            ("find \"$PWD/.bin\" -name \"cargo-vet\"", "run 'dappctl install --cargo'"),
        ),
        CmdOp::CargoACLInstalled => Some(
            ("find \"$PWD/.bin\" -name \"cargo-acl\"", "run 'dappctl install --cargo'"),
        ),
        CmdOp::CargoDenyInstalled => Some(
            ("find \"$PWD/.bin\" -name \"cargo-deny\"", "run 'dappctl install --cargo'"),
        ),
    }
}

/// The cargo helper checks, in their declared order.
pub open spec fn spec_cargo_ops() -> Seq<CargoOp> {
    seq![
        CargoOp::CargoMakeInstalled,
        CargoOp::CargoVetInstalled,
        CargoOp::CargoACLInstalled,
        CargoOp::CargoDenyInstalled,
    ]
}

/// The catalog of cargo helper checks, in declared order.
pub fn cargo_ops() -> (r: Vec<CargoOp>)
    ensures
        r@ == spec_cargo_ops(),
{
    let mut v: Vec<CargoOp> = Vec::new();
    v.push(CargoOp::CargoMakeInstalled);
    v.push(CargoOp::CargoVetInstalled);
    v.push(CargoOp::CargoACLInstalled);
    v.push(CargoOp::CargoDenyInstalled);
    proof {
        assert(v@ =~= spec_cargo_ops());
    }
    v
}

/// The probe command and remediation suggestion of a cargo helper check.
pub open spec fn spec_cargo_op_exec(op: CargoOp) -> (Seq<char>, Seq<char>) {
    match op {
        CargoOp::CargoMakeInstalled => (
            "find \"$PWD/.bin\" -name \"cargo-make\""@,
            "run 'dappctl install --cargo'"@,
        ),
        CargoOp::CargoVetInstalled => (
            "find \"$PWD/.bin\" -name \"cargo-vet\""@,
            "run 'dappctl install --cargo'"@,
        ),
        CargoOp::CargoACLInstalled => (
            "find \"$PWD/.bin\" -name \"cargo-acl\""@,
            "run 'dappctl install --cargo'"@,
        ),
        CargoOp::CargoDenyInstalled => (
            "find \"$PWD/.bin\" -name \"cargo-deny\""@,
            "run 'dappctl install --cargo'"@,
        ),
    }
}

/// The probe command and remediation suggestion of a cargo helper check.
pub fn cargo_op_exec(op: CargoOp) -> (r: (&'static str, &'static str))
    ensures
        r.0@ == spec_cargo_op_exec(op).0,
        r.1@ == spec_cargo_op_exec(op).1,
{
    match op {
        CargoOp::CargoMakeInstalled => (
            "find \"$PWD/.bin\" -name \"cargo-make\"",
            "run 'dappctl install --cargo'",
        ),
        CargoOp::CargoVetInstalled => (
            "find \"$PWD/.bin\" -name \"cargo-vet\"",
            "run 'dappctl install --cargo'",
        ),
        CargoOp::CargoACLInstalled => (
            "find \"$PWD/.bin\" -name \"cargo-acl\"",
            "run 'dappctl install --cargo'",
        ),
        CargoOp::CargoDenyInstalled => (
            "find \"$PWD/.bin\" -name \"cargo-deny\"",
            "run 'dappctl install --cargo'",
        ),
    }
}

} // verus!
