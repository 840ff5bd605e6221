//! Rendering the configuration for the `read` subcommand.
//!
//! `read` only prints the parsed configuration: it never builds an
//! external invocation, whatever the configuration holds, and that is
//! visible in the types here — the result is text, not a `Command`.
//! The output is one `key=value` line per configured field, in the
//! order of the model, with list entries repeated in input order.

use vstd::prelude::*;
use vstd::string::StringExecFns;

use crate::config::BuildConfig;
use crate::config::ComposeConfig;
use crate::config::DevcontainerConfig;
use crate::config::ImageConfig;
use crate::config::PortsConfig;
use crate::config::RunConfig;
use crate::config::VolumeEntry;
use crate::decimal::dec_rep;
use crate::decimal::append_decimal;
use crate::command::mount_arg;
use crate::command::mount_arg_view;

verus! {

/// One output line: `key=value` and a line break.
pub open spec fn line_view(key: Seq<char>, value: Seq<char>) -> Seq<char> {
    key + "="@ + value + "\n"@
}

/// The line of an optional string field, empty when the field is
/// absent.
pub open spec fn opt_line_view(key: Seq<char>, value: Option<String>) -> Seq<char> {
    match value {
        Some(v) => line_view(key, v@),
        None => Seq::empty(),
    }
}

/// The text of a flag value.
pub open spec fn bool_view(b: bool) -> Seq<char> {
    if b {
        "true"@
    } else {
        "false"@
    }
}

/// The lines of the image kind.
pub open spec fn render_image(o: Option<ImageConfig>) -> Seq<char> {
    match o {
        Some(c) => line_view("image.name"@, c.name@),
        None => Seq::empty(),
    }
}

/// The lines of the build arguments, in order.
pub open spec fn render_build_args(pairs: Seq<(String, String)>) -> Seq<char>
    decreases pairs.len(),
{
    if pairs.len() == 0 {
        Seq::empty()
    } else {
        render_build_args(pairs.drop_last())
            + line_view("build.arg."@ + pairs.last().0@, pairs.last().1@)
    }
}

/// The lines of the build kind.
pub open spec fn render_build(o: Option<BuildConfig>) -> Seq<char> {
    match o {
        Some(c) => line_view("build.name"@, c.name@) + line_view(
            "build.dockerfile"@,
            c.dockerfile@,
        ) + line_view("build.context"@, c.context@) + opt_line_view("build.target"@, c.target)
            + render_build_args(c.args@),
        None => Seq::empty(),
    }
}

/// The lines of the compose files, in order.
pub open spec fn render_compose_files(files: Seq<String>) -> Seq<char>
    decreases files.len(),
{
    if files.len() == 0 {
        Seq::empty()
    } else {
        render_compose_files(files.drop_last()) + line_view("compose.file"@, files.last()@)
    }
}

/// The lines of the compose kind.
pub open spec fn render_compose(o: Option<ComposeConfig>) -> Seq<char> {
    match o {
        Some(c) => render_compose_files(c.files@) + opt_line_view("compose.service"@, c.service)
            + opt_line_view("compose.workspace_folder"@, c.workspace_folder) + opt_line_view(
            "compose.shutdown_action"@,
            c.shutdown_action,
        ) + (match c.override_command {
            Some(b) => line_view("compose.override_command"@, bool_view(b)),
            None => Seq::empty(),
        }),
        None => Seq::empty(),
    }
}

/// The lines of the extra run arguments, in order.
pub open spec fn render_run_args(extra: Seq<String>) -> Seq<char>
    decreases extra.len(),
{
    if extra.len() == 0 {
        Seq::empty()
    } else {
        render_run_args(extra.drop_last()) + line_view("run.arg"@, extra.last()@)
    }
}

/// The lines of the run parameters.
pub open spec fn render_run(o: Option<RunConfig>) -> Seq<char> {
    match o {
        Some(r) => line_view("run.workdir"@, r.workdir@) + opt_line_view("run.user"@, r.user)
            + render_run_args(r.run_args@),
        None => Seq::empty(),
    }
}

/// The lines of one port list, in order.
pub open spec fn render_port_list(key: Seq<char>, ps: Seq<u16>) -> Seq<char>
    decreases ps.len(),
{
    if ps.len() == 0 {
        Seq::empty()
    } else {
        render_port_list(key, ps.drop_last()) + line_view(key, dec_rep(ps.last() as nat))
    }
}

/// The lines of the port mappings: application ports, then forwarded
/// ports.
pub open spec fn render_ports(o: Option<PortsConfig>) -> Seq<char> {
    match o {
        Some(p) => render_port_list("port.app"@, p.app@) + render_port_list(
            "port.forward"@,
            p.forward@,
        ),
        None => Seq::empty(),
    }
}

/// The lines of the volume mounts, in order, each shown as its mount
/// argument.
pub open spec fn render_volumes(vs: Seq<VolumeEntry>) -> Seq<char>
    decreases vs.len(),
{
    if vs.len() == 0 {
        Seq::empty()
    } else {
        render_volumes(vs.drop_last()) + line_view(
            "volume."@ + vs.last().name@,
            mount_arg_view(vs.last().mount),
        )
    }
}

/// The whole rendering: the container name, then every configured
/// section.
pub open spec fn render_config(cfg: DevcontainerConfig) -> Seq<char> {
    line_view("name"@, cfg.name@) + render_image(cfg.image) + render_build(cfg.build)
        + render_compose(cfg.compose) + render_run(cfg.run) + render_ports(cfg.ports)
        + render_volumes(cfg.volumes@)
}

/// Appends one `key=value` line.
fn append_line(out: &mut String, key: &str, value: &str)
    ensures
        final(out)@ == old(out)@ + line_view(key@, value@),
{
    out.append(key);
    out.append("=");
    out.append(value);
    out.append("\n");
    proof {
        assert(out@ =~= old(out)@ + line_view(key@, value@));
    }
}

/// Appends one line whose value is a port number.
fn append_port_line(out: &mut String, key: &str, p: u16)
    ensures
        final(out)@ == old(out)@ + line_view(key@, dec_rep(p as nat)),
{
    out.append(key);
    out.append("=");
    append_decimal(out, p);
    out.append("\n");
    proof {
        assert(out@ =~= old(out)@ + line_view(key@, dec_rep(p as nat)));
    }
}

/// Appends the image kind section.
fn append_image_section(out: &mut String, image: &Option<ImageConfig>)
    ensures
        final(out)@ == old(out)@ + render_image(*image),
{
    match image {
        Some(c) => append_line(out, "image.name", c.name.as_str()),
        None => (),
    }
    proof {
        assert(out@ =~= old(out)@ + render_image(*image));
    }
}

/// Appends the build kind section.
fn append_build_section(out: &mut String, build: &Option<BuildConfig>)
    ensures
        final(out)@ == old(out)@ + render_build(*build),
{
    match build {
        Some(c) => {
            append_line(out, "build.name", c.name.as_str());
            append_line(out, "build.dockerfile", c.dockerfile.as_str());
            append_line(out, "build.context", c.context.as_str());
            match &c.target {
                Some(t) => append_line(out, "build.target", t.as_str()),
                None => (),
            }
            let ghost before_args = out@;
            let mut i: usize = 0;
            while i < c.args.len()
                invariant
                    i <= c.args.len(),
                    out@ == before_args + render_build_args(c.args@.take(i as int)),
                decreases c.args.len() - i,
            {
                let pair: &(String, String) = &c.args[i];
                out.append("build.arg.");
                out.append(pair.0.as_str());
                out.append("=");
                out.append(pair.1.as_str());
                out.append("\n");
                proof {
                    assert(c.args@.take(i + 1).drop_last() =~= c.args@.take(i as int));
                    assert(out@ =~= before_args + render_build_args(c.args@.take(i + 1)));
                }
                i = i + 1;
            }
            proof {
                assert(c.args@.take(c.args@.len() as int) =~= c.args@);
            }
        },
        None => (),
    }
    proof {
        assert(out@ =~= old(out)@ + render_build(*build));
    }
}

/// Appends the compose kind section.
fn append_compose_section(out: &mut String, compose: &Option<ComposeConfig>)
    ensures
        final(out)@ == old(out)@ + render_compose(*compose),
{
    match compose {
        Some(c) => {
            let ghost before_files = out@;
            let mut i: usize = 0;
            while i < c.files.len()
                invariant
                    i <= c.files.len(),
                    out@ == before_files + render_compose_files(c.files@.take(i as int)),
                decreases c.files.len() - i,
            {
                append_line(out, "compose.file", c.files[i].as_str());
                proof {
                    assert(c.files@.take(i + 1).drop_last() =~= c.files@.take(i as int));
                    assert(out@ =~= before_files + render_compose_files(c.files@.take(i + 1)));
                }
                i = i + 1;
            }
            proof {
                assert(c.files@.take(c.files@.len() as int) =~= c.files@);
            }
            match &c.service {
                Some(s) => append_line(out, "compose.service", s.as_str()),
                None => (),
            }
            match &c.workspace_folder {
                Some(s) => append_line(out, "compose.workspace_folder", s.as_str()),
                None => (),
            }
            match &c.shutdown_action {
                Some(s) => append_line(out, "compose.shutdown_action", s.as_str()),
                None => (),
            }
            match &c.override_command {
                Some(b) => {
                    if *b {
                        append_line(out, "compose.override_command", "true");
                    } else {
                        append_line(out, "compose.override_command", "false");
                    }
                },
                None => (),
            }
        },
        None => (),
    }
    proof {
        assert(out@ =~= old(out)@ + render_compose(*compose));
    }
}

/// Appends the run-parameter section.
fn append_run_section(out: &mut String, run: &Option<RunConfig>)
    ensures
        final(out)@ == old(out)@ + render_run(*run),
{
    match run {
        Some(r) => {
            append_line(out, "run.workdir", r.workdir.as_str());
            match &r.user {
                Some(u) => append_line(out, "run.user", u.as_str()),
                None => (),
            }
            let ghost before_extra = out@;
            let mut i: usize = 0;
            while i < r.run_args.len()
                invariant
                    i <= r.run_args.len(),
                    out@ == before_extra + render_run_args(r.run_args@.take(i as int)),
                decreases r.run_args.len() - i,
            {
                append_line(out, "run.arg", r.run_args[i].as_str());
                proof {
                    assert(r.run_args@.take(i + 1).drop_last() =~= r.run_args@.take(i as int));
                    assert(out@ =~= before_extra + render_run_args(r.run_args@.take(i + 1)));
                }
                i = i + 1;
            }
            proof {
                assert(r.run_args@.take(r.run_args@.len() as int) =~= r.run_args@);
            }
        },
        None => (),
    }
    proof {
        assert(out@ =~= old(out)@ + render_run(*run));
    }
}

/// Appends the port-mapping section.
fn append_ports_section(out: &mut String, ports: &Option<PortsConfig>)
    ensures
        final(out)@ == old(out)@ + render_ports(*ports),
{
    match ports {
        Some(p) => {
            let ghost before_app = out@;
            let mut i: usize = 0;
            while i < p.app.len()
                invariant
                    i <= p.app.len(),
                    out@ == before_app + render_port_list("port.app"@, p.app@.take(i as int)),
                decreases p.app.len() - i,
            {
                append_port_line(out, "port.app", p.app[i]);
                proof {
                    assert(p.app@.take(i + 1).drop_last() =~= p.app@.take(i as int));
                    assert(out@ =~= before_app + render_port_list(
                        "port.app"@,
                        p.app@.take(i + 1),
                    ));
                }
                i = i + 1;
            }
            proof {
                assert(p.app@.take(p.app@.len() as int) =~= p.app@);
            }
            let ghost before_fwd = out@;
            let mut j: usize = 0;
            while j < p.forward.len()
                invariant
                    j <= p.forward.len(),
                    out@ == before_fwd + render_port_list(
                        "port.forward"@,
                        p.forward@.take(j as int),
                    ),
                decreases p.forward.len() - j,
            {
                append_port_line(out, "port.forward", p.forward[j]);
                proof {
                    assert(p.forward@.take(j + 1).drop_last() =~= p.forward@.take(j as int));
                    assert(out@ =~= before_fwd + render_port_list(
                        "port.forward"@,
                        p.forward@.take(j + 1),
                    ));
                }
                j = j + 1;
            }
            proof {
                assert(p.forward@.take(p.forward@.len() as int) =~= p.forward@);
            }
        },
        None => (),
    }
    proof {
        assert(out@ =~= old(out)@ + render_ports(*ports));
    }
}

/// Appends the volume-mount section.
fn append_volumes_section(out: &mut String, volumes: &Vec<VolumeEntry>)
    ensures
        final(out)@ == old(out)@ + render_volumes(volumes@),
{
    let ghost before_volumes = out@;
    let mut i: usize = 0;
    while i < volumes.len()
        invariant
            i <= volumes.len(),
            out@ == before_volumes + render_volumes(volumes@.take(i as int)),
        decreases volumes.len() - i,
    {
        let entry: &VolumeEntry = &volumes[i];
        let text = mount_arg(&entry.mount);
        out.append("volume.");
        out.append(entry.name.as_str());
        out.append("=");
        out.append(text.as_str());
        out.append("\n");
        proof {
            assert(volumes@.take(i + 1).drop_last() =~= volumes@.take(i as int));
            assert(out@ =~= before_volumes + render_volumes(volumes@.take(i + 1)));
        }
        i = i + 1;
    }
    proof {
        assert(volumes@.take(volumes@.len() as int) =~= volumes@);
    }
}

/// Translates `read`: renders the parsed configuration as text. No
/// invocation of the external tool is built or run.
pub fn handle_read(_extra: &Vec<String>, cfg: &DevcontainerConfig) -> (r: String)
    ensures
        r@ == render_config(*cfg),
{
    let mut out = String::new();
    append_line(&mut out, "name", cfg.name.as_str());
    proof {
        assert(out@ =~= line_view("name"@, cfg.name@));
    }
    append_image_section(&mut out, &cfg.image);
    append_build_section(&mut out, &cfg.build);
    append_compose_section(&mut out, &cfg.compose);
    append_run_section(&mut out, &cfg.run);
    append_ports_section(&mut out, &cfg.ports);
    append_volumes_section(&mut out, &cfg.volumes);
    proof {
        assert(out@ =~= render_config(*cfg));
    }
    out
}

} // verus!
