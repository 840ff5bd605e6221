//! Translation of subcommands into external-tool invocations.
//!
//! Every subcommand that reaches the external container tool becomes a
//! `Command`: the tool's program name and its ordered argument list.
//! The specification functions below state the exact argument list for
//! each subcommand and configuration; the executable builders are
//! verified to produce exactly that list. Nothing here spawns a
//! process: running the command and propagating its status belong to
//! the binary around the library.

use vstd::prelude::*;
use vstd::string::StringExecFns;

use crate::config::BuildConfig;
use crate::config::ComposeConfig;
use crate::config::DevcontainerConfig;
use crate::config::ImageConfig;
use crate::config::PortsConfig;
use crate::config::RunConfig;
use crate::config::VolumeEntry;
use crate::config::VolumeMount;
use crate::decimal::dec_rep;
use crate::decimal::append_decimal;
use crate::errors::ConfigError;
use crate::errors::ValidationIssue;

verus! {

/// One external-tool invocation: the program and its arguments, in
/// order.
pub struct Command {
    /// The program to run.
    pub program: String,
    /// The arguments, in the order they are passed.
    pub args: Vec<String>,
}

/// The character sequences of an argument list.
pub open spec fn arg_views(args: Seq<String>) -> Seq<Seq<char>> {
    args.map_values(|s: String| s@)
}

impl Command {
    /// The argument list as character sequences.
    pub open spec fn argv(&self) -> Seq<Seq<char>> {
        arg_views(self.args@)
    }

    /// Whether this invocation runs the external container tool.
    pub open spec fn is_container_tool(&self) -> bool {
        self.program@ == "docker"@
    }
}

/// Appends one argument.
fn push_arg(args: &mut Vec<String>, s: &str)
    ensures
        arg_views(final(args)@) == arg_views(old(args)@).push(s@),
{
    args.push(s.to_owned());
    proof {
        assert(arg_views(args@) =~= arg_views(old(args)@).push(s@));
    }
}

/// Starts an invocation of the external container tool.
fn container_tool_command() -> (c: Command)
    ensures
        c.is_container_tool(),
        c.argv() == Seq::<Seq<char>>::empty(),
{
    let c = Command { program: String::from_str("docker"), args: Vec::new() };
    proof {
        assert(c.argv() =~= Seq::<Seq<char>>::empty());
    }
    c
}

/// `build` for the image kind: pull the image reference.
pub open spec fn image_build_argv(c: ImageConfig) -> Seq<Seq<char>> {
    seq!["pull"@, c.name@]
}

/// The `--target` flag pair, when a build stage is configured.
pub open spec fn target_argv(t: Option<String>) -> Seq<Seq<char>> {
    match t {
        Some(stage) => seq!["--target"@, stage@],
        None => Seq::empty(),
    }
}

/// One `--build-arg` flag pair per argument, as `name=value`, in
/// order.
pub open spec fn build_arg_pairs_argv(pairs: Seq<(String, String)>) -> Seq<Seq<char>>
    decreases pairs.len(),
{
    if pairs.len() == 0 {
        Seq::empty()
    } else {
        build_arg_pairs_argv(pairs.drop_last())
            + seq!["--build-arg"@, pairs.last().0@ + "="@ + pairs.last().1@]
    }
}

/// `build` for the build kind: dockerfile, tag, optional stage, build
/// arguments, then the context.
pub open spec fn docker_build_argv(c: BuildConfig) -> Seq<Seq<char>> {
    seq!["build"@, "-f"@, c.dockerfile@, "-t"@, c.name@] + target_argv(c.target)
        + build_arg_pairs_argv(c.args@) + seq![c.context@]
}

/// One `-f` flag pair per compose file, in order.
pub open spec fn compose_file_argv(files: Seq<String>) -> Seq<Seq<char>>
    decreases files.len(),
{
    if files.len() == 0 {
        Seq::empty()
    } else {
        compose_file_argv(files.drop_last()) + seq!["-f"@, files.last()@]
    }
}

/// `build` for the compose kind: build across the listed files.
pub open spec fn compose_build_argv(c: ComposeConfig) -> Seq<Seq<char>> {
    seq!["compose"@] + compose_file_argv(c.files@) + seq!["build"@]
}

/// The service name argument, when one is configured.
pub open spec fn service_argv(s: Option<String>) -> Seq<Seq<char>> {
    match s {
        Some(service) => seq![service@],
        None => Seq::empty(),
    }
}

/// `up` for the compose kind: a detached compose `up`, scoped to the
/// configured service when there is one.
pub open spec fn compose_up_argv(c: ComposeConfig) -> Seq<Seq<char>> {
    seq!["compose"@] + compose_file_argv(c.files@) + seq!["up"@, "-d"@] + service_argv(c.service)
}

/// The run-parameter arguments: optional user, the working directory,
/// then the extra raw arguments verbatim.
pub open spec fn run_params_argv(r: Option<RunConfig>) -> Seq<Seq<char>> {
    match r {
        None => Seq::empty(),
        Some(rc) => (match rc.user {
            Some(u) => seq!["--user"@, u@],
            None => Seq::empty(),
        }) + seq!["--workdir"@, rc.workdir@] + arg_views(rc.run_args@),
    }
}

/// The mount argument of one volume: `host:container:mode`, with the
/// mode defaulting to read-write.
pub open spec fn mount_arg_view(m: VolumeMount) -> Seq<char> {
    m.host@ + ":"@ + m.container@ + ":"@ + (match m.mode {
        Some(mode) => mode@,
        None => "rw"@,
    })
}

/// One `-v` flag pair per volume, in order.
pub open spec fn volumes_argv(vs: Seq<VolumeEntry>) -> Seq<Seq<char>>
    decreases vs.len(),
{
    if vs.len() == 0 {
        Seq::empty()
    } else {
        volumes_argv(vs.drop_last()) + seq!["-v"@, mount_arg_view(vs.last().mount)]
    }
}

/// The mapping argument of one port: the same port on host and
/// container sides.
pub open spec fn port_arg_view(p: u16) -> Seq<char> {
    dec_rep(p as nat) + ":"@ + dec_rep(p as nat)
}

/// One `-p` flag pair per port, in order.
pub open spec fn port_list_argv(ps: Seq<u16>) -> Seq<Seq<char>>
    decreases ps.len(),
{
    if ps.len() == 0 {
        Seq::empty()
    } else {
        port_list_argv(ps.drop_last()) + seq!["-p"@, port_arg_view(ps.last())]
    }
}

/// All port flag pairs: the application ports, then the forwarded
/// ports, each list in input order.
pub open spec fn ports_argv(p: Option<PortsConfig>) -> Seq<Seq<char>> {
    match p {
        None => Seq::empty(),
        Some(pc) => port_list_argv(pc.app@) + port_list_argv(pc.forward@),
    }
}

/// The image to run for a non-compose `up`: the image reference, or
/// the build tag when the kind is a local build.
pub open spec fn image_reference(cfg: DevcontainerConfig) -> Seq<char> {
    match cfg.image {
        Some(ic) => ic.name@,
        None => match cfg.build {
            Some(bc) => bc.name@,
            None => Seq::empty(),
        },
    }
}

/// `up` for a single container: a detached run with name, run
/// parameters, volumes, ports, then the image.
pub open spec fn container_up_argv(cfg: DevcontainerConfig) -> Seq<Seq<char>> {
    seq!["run"@, "-d"@, "--name"@, cfg.name@] + run_params_argv(cfg.run)
        + volumes_argv(cfg.volumes@) + ports_argv(cfg.ports) + seq![image_reference(cfg)]
}

/// What runs inside an `exec` session: the trailing arguments
/// verbatim, or a shell when there are none.
pub open spec fn exec_tail_argv(extra: Seq<String>) -> Seq<Seq<char>> {
    if extra.len() == 0 {
        seq!["sh"@]
    } else {
        arg_views(extra)
    }
}

/// `exec` against the single named container.
pub open spec fn container_exec_argv(cfg: DevcontainerConfig, extra: Seq<String>) -> Seq<
    Seq<char>,
> {
    seq!["exec"@, "-it"@, cfg.name@] + exec_tail_argv(extra)
}

/// `exec` against the configured compose service.
pub open spec fn compose_exec_argv(c: ComposeConfig, extra: Seq<String>) -> Seq<Seq<char>> {
    seq!["compose"@] + compose_file_argv(c.files@) + seq!["exec"@, "-it"@]
        + service_argv(c.service) + exec_tail_argv(extra)
}

/// `stop` for the single named container.
pub open spec fn container_stop_argv(cfg: DevcontainerConfig) -> Seq<Seq<char>> {
    seq!["stop"@, cfg.name@]
}

/// `stop` for the compose stack.
pub open spec fn compose_stop_argv(c: ComposeConfig) -> Seq<Seq<char>> {
    seq!["compose"@] + compose_file_argv(c.files@) + seq!["stop"@]
}

/// `down` for the single named container: a forced remove.
pub open spec fn container_down_argv(cfg: DevcontainerConfig) -> Seq<Seq<char>> {
    seq!["rm"@, "-f"@, cfg.name@]
}

/// `down` for the compose stack.
pub open spec fn compose_down_argv(c: ComposeConfig) -> Seq<Seq<char>> {
    seq!["compose"@] + compose_file_argv(c.files@) + seq!["down"@]
}

/// The argument list of `build`, for a configuration with exactly one
/// kind set.
pub open spec fn build_argv(cfg: DevcontainerConfig) -> Seq<Seq<char>> {
    match cfg.image {
        Some(ic) => image_build_argv(ic),
        None => match cfg.build {
            Some(bc) => docker_build_argv(bc),
            None => match cfg.compose {
                Some(cc) => compose_build_argv(cc),
                None => Seq::empty(),
            },
        },
    }
}

/// The argument list of `up`, for a configuration with exactly one
/// kind set.
pub open spec fn up_argv(cfg: DevcontainerConfig) -> Seq<Seq<char>> {
    match cfg.compose {
        Some(cc) => compose_up_argv(cc),
        None => container_up_argv(cfg),
    }
}

/// The argument list of `stop`.
pub open spec fn stop_argv(cfg: DevcontainerConfig) -> Seq<Seq<char>> {
    match cfg.compose {
        Some(cc) => compose_stop_argv(cc),
        None => container_stop_argv(cfg),
    }
}

/// The argument list of `down`.
pub open spec fn down_argv(cfg: DevcontainerConfig) -> Seq<Seq<char>> {
    match cfg.compose {
        Some(cc) => compose_down_argv(cc),
        None => container_down_argv(cfg),
    }
}

/// Returns the mapping argument of one port.
pub fn port_arg(p: u16) -> (r: String)
    ensures
        r@ == port_arg_view(p),
{
    let mut out = String::new();
    append_decimal(&mut out, p);
    out.append(":");
    append_decimal(&mut out, p);
    proof {
        assert(out@ =~= port_arg_view(p));
    }
    out
}

/// Returns the mount argument of one volume.
pub fn mount_arg(m: &VolumeMount) -> (r: String)
    ensures
        r@ == mount_arg_view(*m),
{
    let mut out = m.host.clone();
    out.append(":");
    out.append(m.container.as_str());
    out.append(":");
    match &m.mode {
        Some(mode) => out.append(mode.as_str()),
        None => out.append("rw"),
    }
    proof {
        assert(out@ =~= mount_arg_view(*m));
    }
    out
}

/// Appends the `-f` flag pairs for the compose files.
fn append_compose_files(args: &mut Vec<String>, files: &Vec<String>)
    ensures
        arg_views(final(args)@) == arg_views(old(args)@) + compose_file_argv(files@),
{
    let ghost pre = arg_views(args@);
    let mut i: usize = 0;
    while i < files.len()
        invariant
            i <= files.len(),
            arg_views(args@) == pre + compose_file_argv(files@.take(i as int)),
        decreases files.len() - i,
    {
        push_arg(args, "-f");
        push_arg(args, files[i].as_str());
        proof {
            assert(files@.take(i + 1).drop_last() =~= files@.take(i as int));
            assert(arg_views(args@) =~= pre + compose_file_argv(files@.take(i + 1)));
        }
        i = i + 1;
    }
    proof {
        assert(files@.take(files@.len() as int) =~= files@);
        assert(arg_views(args@) =~= pre + compose_file_argv(files@));
    }
}

/// Appends the trailing arguments of an `exec`, or a shell when there
/// are none.
fn append_exec_tail(args: &mut Vec<String>, extra: &Vec<String>)
    ensures
        arg_views(final(args)@) == arg_views(old(args)@) + exec_tail_argv(extra@),
{
    let ghost pre = arg_views(args@);
    if extra.len() == 0 {
        push_arg(args, "sh");
        proof {
            assert(arg_views(args@) =~= pre + exec_tail_argv(extra@));
        }
    } else {
        let mut i: usize = 0;
        while i < extra.len()
            invariant
                i <= extra.len(),
                arg_views(args@) == pre + arg_views(extra@.take(i as int)),
            decreases extra.len() - i,
        {
            push_arg(args, extra[i].as_str());
            proof {
                assert(arg_views(extra@.take(i + 1)) =~= arg_views(
                    extra@.take(i as int),
                ).push(extra@[i as int]@));
                assert(arg_views(args@) =~= pre + arg_views(extra@.take(i + 1)));
            }
            i = i + 1;
        }
        proof {
            assert(extra@.take(extra@.len() as int) =~= extra@);
            assert(arg_views(extra@.take(extra@.len() as int)) =~= arg_views(extra@));
            assert(arg_views(args@) =~= pre + exec_tail_argv(extra@));
        }
    }
}

/// Builds the `build` invocation for the image kind.
pub fn image_build_command(c: &ImageConfig) -> (r: Command)
    ensures
        r.is_container_tool(),
        r.argv() == image_build_argv(*c),
{
    let mut cmd = container_tool_command();
    push_arg(&mut cmd.args, "pull");
    push_arg(&mut cmd.args, c.name.as_str());
    proof {
        assert(cmd.argv() =~= image_build_argv(*c));
    }
    cmd
}

/// Builds the `stop` invocation for the single named container.
pub fn container_stop_command(cfg: &DevcontainerConfig) -> (r: Command)
    ensures
        r.is_container_tool(),
        r.argv() == container_stop_argv(*cfg),
{
    let mut cmd = container_tool_command();
    push_arg(&mut cmd.args, "stop");
    push_arg(&mut cmd.args, cfg.name.as_str());
    proof {
        assert(cmd.argv() =~= container_stop_argv(*cfg));
    }
    cmd
}

/// Builds the `down` invocation for the single named container.
pub fn container_down_command(cfg: &DevcontainerConfig) -> (r: Command)
    ensures
        r.is_container_tool(),
        r.argv() == container_down_argv(*cfg),
{
    let mut cmd = container_tool_command();
    push_arg(&mut cmd.args, "rm");
    push_arg(&mut cmd.args, "-f");
    push_arg(&mut cmd.args, cfg.name.as_str());
    proof {
        assert(cmd.argv() =~= container_down_argv(*cfg));
    }
    cmd
}

/// Builds the `stop` invocation for the compose stack.
pub fn compose_stop_command(c: &ComposeConfig) -> (r: Command)
    ensures
        r.is_container_tool(),
        r.argv() == compose_stop_argv(*c),
{
    let mut cmd = container_tool_command();
    push_arg(&mut cmd.args, "compose");
    append_compose_files(&mut cmd.args, &c.files);
    push_arg(&mut cmd.args, "stop");
    proof {
        assert(cmd.argv() =~= compose_stop_argv(*c));
    }
    cmd
}

/// Builds the `down` invocation for the compose stack.
pub fn compose_down_command(c: &ComposeConfig) -> (r: Command)
    ensures
        r.is_container_tool(),
        r.argv() == compose_down_argv(*c),
{
    let mut cmd = container_tool_command();
    push_arg(&mut cmd.args, "compose");
    append_compose_files(&mut cmd.args, &c.files);
    push_arg(&mut cmd.args, "down");
    proof {
        assert(cmd.argv() =~= compose_down_argv(*c));
    }
    cmd
}

/// Builds the `build` invocation for the compose kind.
pub fn compose_build_command(c: &ComposeConfig) -> (r: Command)
    ensures
        r.is_container_tool(),
        r.argv() == compose_build_argv(*c),
{
    let mut cmd = container_tool_command();
    push_arg(&mut cmd.args, "compose");
    append_compose_files(&mut cmd.args, &c.files);
    push_arg(&mut cmd.args, "build");
    proof {
        assert(cmd.argv() =~= compose_build_argv(*c));
    }
    cmd
}

/// Builds the `exec` invocation against the single named container.
pub fn container_exec_command(extra: &Vec<String>, cfg: &DevcontainerConfig) -> (r: Command)
    ensures
        r.is_container_tool(),
        r.argv() == container_exec_argv(*cfg, extra@),
{
    let mut cmd = container_tool_command();
    push_arg(&mut cmd.args, "exec");
    push_arg(&mut cmd.args, "-it");
    push_arg(&mut cmd.args, cfg.name.as_str());
    append_exec_tail(&mut cmd.args, extra);
    proof {
        assert(cmd.argv() =~= container_exec_argv(*cfg, extra@));
    }
    cmd
}

/// Builds the `exec` invocation against the configured compose
/// service.
pub fn compose_exec_command(extra: &Vec<String>, c: &ComposeConfig) -> (r: Command)
    requires
        c.service is Some,
    ensures
        r.is_container_tool(),
        r.argv() == compose_exec_argv(*c, extra@),
{
    let mut cmd = container_tool_command();
    push_arg(&mut cmd.args, "compose");
    append_compose_files(&mut cmd.args, &c.files);
    push_arg(&mut cmd.args, "exec");
    push_arg(&mut cmd.args, "-it");
    match &c.service {
        Some(service) => push_arg(&mut cmd.args, service.as_str()),
        None => (),
    }
    append_exec_tail(&mut cmd.args, extra);
    proof {
        assert(cmd.argv() =~= compose_exec_argv(*c, extra@));
    }
    cmd
}

/// Builds the `build` invocation for the build kind.
pub fn docker_build_command(c: &BuildConfig) -> (r: Command)
    ensures
        r.is_container_tool(),
        r.argv() == docker_build_argv(*c),
{
    let mut cmd = container_tool_command();
    push_arg(&mut cmd.args, "build");
    push_arg(&mut cmd.args, "-f");
    push_arg(&mut cmd.args, c.dockerfile.as_str());
    push_arg(&mut cmd.args, "-t");
    push_arg(&mut cmd.args, c.name.as_str());
    match &c.target {
        Some(stage) => {
            push_arg(&mut cmd.args, "--target");
            push_arg(&mut cmd.args, stage.as_str());
        },
        None => (),
    }
    let ghost head = seq!["build"@, "-f"@, c.dockerfile@, "-t"@, c.name@] + target_argv(
        c.target,
    );
    proof {
        assert(cmd.argv() =~= head);
    }
    let mut i: usize = 0;
    while i < c.args.len()
        invariant
            i <= c.args.len(),
            cmd.is_container_tool(),
            cmd.argv() == head + build_arg_pairs_argv(c.args@.take(i as int)),
        decreases c.args.len() - i,
    {
        let pair: &(String, String) = &c.args[i];
        let mut assignment = pair.0.clone();
        assignment.append("=");
        assignment.append(pair.1.as_str());
        push_arg(&mut cmd.args, "--build-arg");
        push_arg(&mut cmd.args, assignment.as_str());
        proof {
            assert(c.args@.take(i + 1).drop_last() =~= c.args@.take(i as int));
            assert(cmd.argv() =~= head + build_arg_pairs_argv(c.args@.take(i + 1)));
        }
        i = i + 1;
    }
    proof {
        assert(c.args@.take(c.args@.len() as int) =~= c.args@);
    }
    push_arg(&mut cmd.args, c.context.as_str());
    proof {
        assert(cmd.argv() =~= docker_build_argv(*c));
    }
    cmd
}

/// Builds the `up` invocation for the compose kind.
pub fn compose_up_command(c: &ComposeConfig) -> (r: Command)
    ensures
        r.is_container_tool(),
        r.argv() == compose_up_argv(*c),
{
    let mut cmd = container_tool_command();
    push_arg(&mut cmd.args, "compose");
    append_compose_files(&mut cmd.args, &c.files);
    push_arg(&mut cmd.args, "up");
    push_arg(&mut cmd.args, "-d");
    match &c.service {
        Some(service) => push_arg(&mut cmd.args, service.as_str()),
        None => (),
    }
    proof {
        assert(cmd.argv() =~= compose_up_argv(*c));
    }
    cmd
}

/// Builds the `up` invocation for a single container, run from the
/// image reference or the build tag.
pub fn container_up_command(cfg: &DevcontainerConfig) -> (r: Command)
    requires
        cfg.image is Some || cfg.build is Some,
    ensures
        r.is_container_tool(),
        r.argv() == container_up_argv(*cfg),
{
    let mut cmd = container_tool_command();
    push_arg(&mut cmd.args, "run");
    push_arg(&mut cmd.args, "-d");
    push_arg(&mut cmd.args, "--name");
    push_arg(&mut cmd.args, cfg.name.as_str());
    match &cfg.run {
        Some(rc) => {
            match &rc.user {
                Some(user) => {
                    push_arg(&mut cmd.args, "--user");
                    push_arg(&mut cmd.args, user.as_str());
                },
                None => (),
            }
            push_arg(&mut cmd.args, "--workdir");
            push_arg(&mut cmd.args, rc.workdir.as_str());
            let ghost before_extra = cmd.argv();
            let mut i: usize = 0;
            while i < rc.run_args.len()
                invariant
                    i <= rc.run_args.len(),
                    cmd.is_container_tool(),
                    cmd.argv() == before_extra + arg_views(rc.run_args@.take(i as int)),
                decreases rc.run_args.len() - i,
            {
                push_arg(&mut cmd.args, rc.run_args[i].as_str());
                proof {
                    assert(arg_views(rc.run_args@.take(i + 1)) =~= arg_views(
                        rc.run_args@.take(i as int),
                    ).push(rc.run_args@[i as int]@));
                    assert(cmd.argv() =~= before_extra + arg_views(rc.run_args@.take(i + 1)));
                }
                i = i + 1;
            }
            proof {
                assert(rc.run_args@.take(rc.run_args@.len() as int) =~= rc.run_args@);
                assert(arg_views(rc.run_args@.take(rc.run_args@.len() as int)) =~= arg_views(
                    rc.run_args@,
                ));
            }
        },
        None => (),
    }
    let ghost with_run = seq!["run"@, "-d"@, "--name"@, cfg.name@] + run_params_argv(cfg.run);
    proof {
        assert(cmd.argv() =~= with_run);
    }
    let mut i: usize = 0;
    while i < cfg.volumes.len()
        invariant
            i <= cfg.volumes.len(),
            cmd.is_container_tool(),
            cmd.argv() == with_run + volumes_argv(cfg.volumes@.take(i as int)),
        decreases cfg.volumes.len() - i,
    {
        let spec_text = mount_arg(&cfg.volumes[i].mount);
        push_arg(&mut cmd.args, "-v");
        push_arg(&mut cmd.args, spec_text.as_str());
        proof {
            assert(cfg.volumes@.take(i + 1).drop_last() =~= cfg.volumes@.take(i as int));
            assert(cmd.argv() =~= with_run + volumes_argv(cfg.volumes@.take(i + 1)));
        }
        i = i + 1;
    }
    proof {
        assert(cfg.volumes@.take(cfg.volumes@.len() as int) =~= cfg.volumes@);
    }
    let ghost with_volumes = with_run + volumes_argv(cfg.volumes@);
    match &cfg.ports {
        Some(pc) => {
            let mut i: usize = 0;
            while i < pc.app.len()
                invariant
                    i <= pc.app.len(),
                    cmd.is_container_tool(),
                    cmd.argv() == with_volumes + port_list_argv(pc.app@.take(i as int)),
                decreases pc.app.len() - i,
            {
                let mapping = port_arg(pc.app[i]);
                push_arg(&mut cmd.args, "-p");
                push_arg(&mut cmd.args, mapping.as_str());
                proof {
                    assert(pc.app@.take(i + 1).drop_last() =~= pc.app@.take(i as int));
                    assert(cmd.argv() =~= with_volumes + port_list_argv(pc.app@.take(i + 1)));
                }
                i = i + 1;
            }
            proof {
                assert(pc.app@.take(pc.app@.len() as int) =~= pc.app@);
            }
            let ghost with_app = with_volumes + port_list_argv(pc.app@);
            let mut j: usize = 0;
            while j < pc.forward.len()
                invariant
                    j <= pc.forward.len(),
                    cmd.is_container_tool(),
                    cmd.argv() == with_app + port_list_argv(pc.forward@.take(j as int)),
                decreases pc.forward.len() - j,
            {
                let mapping = port_arg(pc.forward[j]);
                push_arg(&mut cmd.args, "-p");
                push_arg(&mut cmd.args, mapping.as_str());
                proof {
                    assert(pc.forward@.take(j + 1).drop_last() =~= pc.forward@.take(j as int));
                    assert(cmd.argv() =~= with_app + port_list_argv(pc.forward@.take(j + 1)));
                }
                j = j + 1;
            }
            proof {
                assert(pc.forward@.take(pc.forward@.len() as int) =~= pc.forward@);
                assert(cmd.argv() =~= with_volumes + ports_argv(cfg.ports));
            }
        },
        None => (),
    }
    proof {
        assert(cmd.argv() =~= with_volumes + ports_argv(cfg.ports));
    }
    match &cfg.image {
        Some(ic) => push_arg(&mut cmd.args, ic.name.as_str()),
        None => match &cfg.build {
            Some(bc) => push_arg(&mut cmd.args, bc.name.as_str()),
            None => proof {
                assert(false);
            },
        },
    }
    proof {
        assert(cmd.argv() =~= container_up_argv(*cfg));
    }
    cmd
}

/// Translates `build`: checks that exactly one container kind is set,
/// then builds the invocation of that kind. No external process is
/// involved; the caller runs the returned command.
pub fn handle_build(_extra: &Vec<String>, cfg: &DevcontainerConfig) -> (r: Result<
    Command,
    ConfigError,
>)
    ensures
        cfg.has_one_kind() ==> (r matches Ok(c) && c.is_container_tool() && c.argv()
            == build_argv(*cfg)),
        cfg.kind_count() == 0 ==> (r matches Err(e) && e == ConfigError::ValidationError(
            ValidationIssue::NoKindSet,
        )),
        cfg.kind_count() > 1 ==> (r matches Err(e) && e == ConfigError::ValidationError(
            ValidationIssue::MultipleKindsSet,
        )),
{
    let count = count_kinds(cfg);
    if count == 0 {
        return Err(ConfigError::ValidationError(ValidationIssue::NoKindSet));
    }
    if count > 1 {
        return Err(ConfigError::ValidationError(ValidationIssue::MultipleKindsSet));
    }
    match &cfg.image {
        Some(ic) => Ok(image_build_command(ic)),
        None => match &cfg.build {
            Some(bc) => Ok(docker_build_command(bc)),
            None => match &cfg.compose {
                Some(cc) => Ok(compose_build_command(cc)),
                None => vstd::pervasive::unreached(),
            },
        },
    }
}

/// Translates `up`: checks that exactly one container kind is set,
/// then builds a detached compose `up` or a detached single-container
/// run.
pub fn handle_up(_extra: &Vec<String>, cfg: &DevcontainerConfig) -> (r: Result<
    Command,
    ConfigError,
>)
    ensures
        cfg.has_one_kind() ==> (r matches Ok(c) && c.is_container_tool() && c.argv() == up_argv(
            *cfg,
        )),
        cfg.kind_count() == 0 ==> (r matches Err(e) && e == ConfigError::ValidationError(
            ValidationIssue::NoKindSet,
        )),
        cfg.kind_count() > 1 ==> (r matches Err(e) && e == ConfigError::ValidationError(
            ValidationIssue::MultipleKindsSet,
        )),
{
    let count = count_kinds(cfg);
    if count == 0 {
        return Err(ConfigError::ValidationError(ValidationIssue::NoKindSet));
    }
    if count > 1 {
        return Err(ConfigError::ValidationError(ValidationIssue::MultipleKindsSet));
    }
    match &cfg.compose {
        Some(cc) => Ok(compose_up_command(cc)),
        None => Ok(container_up_command(cfg)),
    }
}

/// Translates `exec`: an interactive session in the configured
/// compose service, which must then be named, or in the single named
/// container.
pub fn handle_exec(extra: &Vec<String>, cfg: &DevcontainerConfig) -> (r: Result<
    Command,
    ConfigError,
>)
    ensures
        match cfg.compose {
            Some(cc) => if cc.service is None {
                r matches Err(e) && e == ConfigError::ValidationError(
                    ValidationIssue::MissingComposeService,
                )
            } else {
                r matches Ok(c) && c.is_container_tool() && c.argv() == compose_exec_argv(
                    cc,
                    extra@,
                )
            },
            None => r matches Ok(c) && c.is_container_tool() && c.argv() == container_exec_argv(
                *cfg,
                extra@,
            ),
        },
{
    match &cfg.compose {
        Some(cc) => {
            if cc.service.is_none() {
                Err(ConfigError::ValidationError(ValidationIssue::MissingComposeService))
            } else {
                Ok(compose_exec_command(extra, cc))
            }
        },
        None => Ok(container_exec_command(extra, cfg)),
    }
}

/// Translates `stop`: stop the compose stack, or the single named
/// container.
pub fn handle_stop(_extra: &Vec<String>, cfg: &DevcontainerConfig) -> (r: Command)
    ensures
        r.is_container_tool(),
        r.argv() == stop_argv(*cfg),
{
    match &cfg.compose {
        Some(cc) => compose_stop_command(cc),
        None => container_stop_command(cfg),
    }
}

/// Translates `down`: tear the compose stack down, or force-remove
/// the single named container.
pub fn handle_down(_extra: &Vec<String>, cfg: &DevcontainerConfig) -> (r: Command)
    ensures
        r.is_container_tool(),
        r.argv() == down_argv(*cfg),
{
    match &cfg.compose {
        Some(cc) => compose_down_command(cc),
        None => container_down_command(cfg),
    }
}

/// Counts how many of the three container kinds are set.
pub fn count_kinds(cfg: &DevcontainerConfig) -> (n: u32)
    ensures
        n as int == cfg.kind_count(),
{
    let mut n: u32 = 0;
    if cfg.image.is_some() {
        n = n + 1;
    }
    if cfg.build.is_some() {
        n = n + 1;
    }
    if cfg.compose.is_some() {
        n = n + 1;
    }
    n
}

/// A port list yields two arguments per port.
pub proof fn lemma_port_list_len(ps: Seq<u16>)
    ensures
        port_list_argv(ps).len() == 2 * ps.len(),
    decreases ps.len(),
{
    if ps.len() > 0 {
        lemma_port_list_len(ps.drop_last());
    }
}

/// The two arguments of the port at one position: the flag, then
/// that port's mapping.
pub proof fn lemma_port_list_entry(ps: Seq<u16>, i: int)
    requires
        0 <= i < ps.len(),
    ensures
        port_list_argv(ps)[2 * i] == "-p"@,
        port_list_argv(ps)[2 * i + 1] == port_arg_view(ps[i]),
    decreases ps.len(),
{
    let dl = ps.drop_last();
    lemma_port_list_len(dl);
    if i < ps.len() - 1 {
        lemma_port_list_entry(dl, i);
        assert(dl[i] == ps[i]);
    } else {
        assert(ps.last() == ps[i]);
    }
}

/// Whether positions `2 * i` and `2 * i + 1` of a port flag list hold
/// the flag and the mapping of the port at position `i`.
pub open spec fn port_pair_at(ps: Seq<u16>, i: int) -> bool {
    port_list_argv(ps)[2 * i] == "-p"@ && port_list_argv(ps)[2 * i + 1] == port_arg_view(ps[i])
}

/// Port flag pairs preserve input order: a port list yields two
/// arguments per port, the flag and then that port's mapping, with
/// the pairs in the order of the list.
pub proof fn lemma_port_list_order(ps: Seq<u16>)
    ensures
        port_list_argv(ps).len() == 2 * ps.len(),
        forall|i: int| 0 <= i < ps.len() ==> #[trigger] port_pair_at(ps, i),
{
    lemma_port_list_len(ps);
    assert forall|i: int| 0 <= i < ps.len() implies #[trigger] port_pair_at(ps, i) by {
        lemma_port_list_entry(ps, i);
    }
}

} // verus!
