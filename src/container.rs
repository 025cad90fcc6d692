use vstd::prelude::*;

use std::hash::{Hash, Hasher};

verus! {

// ---------------------------------------------------------------------------------------------
// Decimal rendering of integers
// ---------------------------------------------------------------------------------------------

pub open spec fn digit_char(d: int) -> char {
    if d == 0 {
        '0'
    } else if d == 1 {
        '1'
    } else if d == 2 {
        '2'
    } else if d == 3 {
        '3'
    } else if d == 4 {
        '4'
    } else if d == 5 {
        '5'
    } else if d == 6 {
        '6'
    } else if d == 7 {
        '7'
    } else if d == 8 {
        '8'
    } else {
        '9'
    }
}

/// The decimal digits of `n`, most significant first, without leading zeros.
pub open spec fn decimal(n: nat) -> Seq<char>
    decreases n,
{
    if n < 10 {
        seq![digit_char(n as int)]
    } else {
        decimal(n / 10).push(digit_char((n % 10) as int))
    }
}

fn digit_str(d: u64) -> (r: &'static str)
    requires
        d < 10,
    ensures
        r@ == seq![digit_char(d as int)],
{
    proof {
        reveal_strlit("0");
        reveal_strlit("1");
        reveal_strlit("2");
        reveal_strlit("3");
        reveal_strlit("4");
        reveal_strlit("5");
        reveal_strlit("6");
        reveal_strlit("7");
        reveal_strlit("8");
        reveal_strlit("9");
    }
    let r = if d == 0 {
        "0"
    } else if d == 1 {
        "1"
    } else if d == 2 {
        "2"
    } else if d == 3 {
        "3"
    } else if d == 4 {
        "4"
    } else if d == 5 {
        "5"
    } else if d == 6 {
        "6"
    } else if d == 7 {
        "7"
    } else if d == 8 {
        "8"
    } else {
        "9"
    };
    assert(r@ =~= seq![digit_char(d as int)]);
    r
}

/// Renders `n` in decimal.
pub fn decimal_string(n: u64) -> (r: String)
    ensures
        r@ == decimal(n as nat),
    decreases n,
{
    if n < 10 {
        String::from_str(digit_str(n))
    } else {
        let mut s = decimal_string(n / 10);
        s.append(digit_str(n % 10));
        s
    }
}

// ---------------------------------------------------------------------------------------------
// Container specification
// ---------------------------------------------------------------------------------------------

/// A mount: a host path (or, without one, an anonymous volume) made visible at `target`.
#[derive(Debug, Clone, Default, Hash)]
pub struct Mount {
    /// The host path to mount; `None` asks for an anonymous volume.
    pub source: Option<String>,
    /// The path inside the container.
    pub target: String,
    /// Whether the container sees the mount read only.
    pub read_only: bool,
}

pub struct MountView {
    pub source: Option<Seq<char>>,
    pub target: Seq<char>,
    pub read_only: bool,
}

impl View for Mount {
    type V = MountView;

    open spec fn view(&self) -> MountView {
        MountView {
            source: match self.source {
                Some(s) => Some(s@),
                None => None,
            },
            target: self.target@,
            read_only: self.read_only,
        }
    }
}

/// The runtime's volume syntax for a mount: `source:target`, with `:ro` when read only, or the
/// bare target for an anonymous volume.
pub open spec fn volume_string(m: MountView) -> Seq<char> {
    match m.source {
        Some(src) => if m.read_only {
            src + ":"@ + m.target + ":ro"@
        } else {
            src + ":"@ + m.target
        },
        None => m.target,
    }
}

impl Mount {
    pub fn to_string(&self) -> (r: String)
        ensures
            r@ == volume_string(self@),
    {
        match &self.source {
            Some(src) => {
                let mut s = src.clone();
                s.append(":");
                s.append(self.target.as_str());
                if self.read_only {
                    s.append(":ro");
                }
                s
            },
            None => self.target.clone(),
        }
    }
}

/// A host port published for a container port.
#[derive(Debug, Clone, Default, Hash)]
pub struct PortMapping {
    /// The port inside the container.
    pub container_port: u32,
    /// The port opened on the host.
    pub host_port: u32,
    /// The protocol, such as `tcp`.
    pub protocol: String,
}

pub struct PortMappingView {
    pub container_port: u32,
    pub host_port: u32,
    pub protocol: Seq<char>,
}

impl View for PortMapping {
    type V = PortMappingView;

    open spec fn view(&self) -> PortMappingView {
        PortMappingView {
            container_port: self.container_port,
            host_port: self.host_port,
            protocol: self.protocol@,
        }
    }
}

/// Everything needed to run one container.
#[derive(Debug, Clone, Default)]
pub struct RunContainerInput {
    /// The image to run.
    pub image: String,
    /// The container's name.
    pub name: String,
    /// The network to connect it to.
    pub network: String,
    /// The user to run as.
    pub user: Option<String>,
    /// The group to run as.
    pub group: Option<String>,
    /// The mounts, in order.
    pub mounts: Vec<Mount>,
    /// Environment variables, each name once.
    pub environment_vars: Vec<(String, String)>,
    /// The command and its arguments.
    pub command_args: Option<Vec<String>>,
    /// The entry point.
    pub entrypoint: Option<Vec<String>>,
    /// Labels put on the container, each key once.
    pub labels: Vec<(String, String)>,
    /// Host ports to publish.
    pub port_mappings: Vec<PortMapping>,
}

pub struct RunContainerInputView {
    pub image: Seq<char>,
    pub name: Seq<char>,
    pub network: Seq<char>,
    pub user: Option<Seq<char>>,
    pub group: Option<Seq<char>>,
    pub mounts: Seq<MountView>,
    pub environment_vars: Seq<(Seq<char>, Seq<char>)>,
    pub command_args: Option<Seq<Seq<char>>>,
    pub entrypoint: Option<Seq<Seq<char>>>,
    pub labels: Seq<(Seq<char>, Seq<char>)>,
    pub port_mappings: Seq<PortMappingView>,
}

pub open spec fn opt_view(o: Option<String>) -> Option<Seq<char>> {
    match o {
        Some(s) => Some(s@),
        None => None,
    }
}

pub open spec fn opt_list_view(o: Option<Vec<String>>) -> Option<Seq<Seq<char>>> {
    match o {
        Some(v) => Some(v.deep_view()),
        None => None,
    }
}

impl View for RunContainerInput {
    type V = RunContainerInputView;

    open spec fn view(&self) -> RunContainerInputView {
        RunContainerInputView {
            image: self.image@,
            name: self.name@,
            network: self.network@,
            user: opt_view(self.user),
            group: opt_view(self.group),
            mounts: self.mounts@.map_values(|m: Mount| m@),
            environment_vars: self.environment_vars.deep_view(),
            command_args: opt_list_view(self.command_args),
            entrypoint: opt_list_view(self.entrypoint),
            labels: self.labels.deep_view(),
            port_mappings: self.port_mappings@.map_values(|p: PortMapping| p@),
        }
    }
}

/// No two entries share a key.
pub open spec fn keys_distinct(entries: Seq<(Seq<char>, Seq<char>)>) -> bool {
    forall|i: int, j: int|
        0 <= i < entries.len() && 0 <= j < entries.len() && i != j ==> #[trigger] entries[i].0
            != #[trigger] entries[j].0
}

impl RunContainerInput {
    /// Environment variables and labels each name a key once.
    pub open spec fn wf(&self) -> bool {
        keys_distinct(self@.environment_vars) && keys_distinct(self@.labels)
    }
}

/// The runtime's user setting: `user`, `user:group`, or empty when no user is given.
pub open spec fn user_string(user: Option<Seq<char>>, group: Option<Seq<char>>) -> Seq<char> {
    match (user, group) {
        (Some(u), Some(g)) => u + ":"@ + g,
        (Some(u), None) => u,
        (None, _) => Seq::empty(),
    }
}

// ---------------------------------------------------------------------------------------------
// Canonical encoding: the container specification as a list of strings, from which a hash is
// taken. Every variable-length part is preceded by its length, so distinct specifications give
// distinct lists.
// ---------------------------------------------------------------------------------------------

pub open spec fn enc_opt(o: Option<Seq<char>>) -> Seq<Seq<char>> {
    match o {
        Some(s) => seq!["+"@, s],
        None => seq!["-"@],
    }
}

pub open spec fn enc_strings(v: Seq<Seq<char>>) -> Seq<Seq<char>> {
    seq![decimal(v.len())] + v
}

pub open spec fn enc_opt_strings(o: Option<Seq<Seq<char>>>) -> Seq<Seq<char>> {
    match o {
        Some(v) => seq!["+"@] + enc_strings(v),
        None => seq!["-"@],
    }
}

pub open spec fn enc_mount(m: MountView) -> Seq<Seq<char>> {
    enc_opt(m.source) + seq![
        m.target,
        if m.read_only {
            "ro"@
        } else {
            "rw"@
        },
    ]
}

pub open spec fn enc_mount_items(ms: Seq<MountView>) -> Seq<Seq<char>>
    decreases ms.len(),
{
    if ms.len() == 0 {
        Seq::empty()
    } else {
        enc_mount_items(ms.drop_last()) + enc_mount(ms.last())
    }
}

pub open spec fn enc_pair_items(ps: Seq<(Seq<char>, Seq<char>)>) -> Seq<Seq<char>>
    decreases ps.len(),
{
    if ps.len() == 0 {
        Seq::empty()
    } else {
        enc_pair_items(ps.drop_last()) + seq![ps.last().0, ps.last().1]
    }
}

pub open spec fn enc_port(p: PortMappingView) -> Seq<Seq<char>> {
    seq![decimal(p.container_port as nat), decimal(p.host_port as nat), p.protocol]
}

pub open spec fn enc_port_items(ps: Seq<PortMappingView>) -> Seq<Seq<char>>
    decreases ps.len(),
{
    if ps.len() == 0 {
        Seq::empty()
    } else {
        enc_port_items(ps.drop_last()) + enc_port(ps.last())
    }
}

/// The canonical encoding of a whole specification, field by field.
pub open spec fn encode(v: RunContainerInputView) -> Seq<Seq<char>> {
    seq![v.image, v.name, v.network] + enc_opt(v.user) + enc_opt(v.group) + seq![
        decimal(v.mounts.len()),
    ] + enc_mount_items(v.mounts) + seq![decimal(v.environment_vars.len())] + enc_pair_items(
        v.environment_vars,
    ) + enc_opt_strings(v.command_args) + enc_opt_strings(v.entrypoint) + seq![
        decimal(v.labels.len()),
    ] + enc_pair_items(v.labels) + seq![decimal(v.port_mappings.len())] + enc_port_items(
        v.port_mappings,
    )
}

/// What std's default hasher yields for a list of strings.
pub uninterp spec fn strings_hash(fields: Seq<Seq<char>>) -> u64;

/// Relies on `std::hash::DefaultHasher` (created by `new`, hence with fixed keys) fed through the
/// `Hash` impl of `Vec<String>`: the result depends on the strings alone.
#[verifier::external_body]
fn hash_strings(fields: &Vec<String>) -> (r: u64)
    ensures
        r == strings_hash(fields.deep_view()),
{
    let mut hasher = std::hash::DefaultHasher::new();
    fields.hash(&mut hasher);
    hasher.finish()
}

fn push_str(out: &mut Vec<String>, s: &str)
    ensures
        final(out).deep_view() == old(out).deep_view().push(s@),
{
    out.push(String::from_str(s));
    assert(final(out).deep_view() =~= old(out).deep_view().push(s@));
}

fn push_opt(out: &mut Vec<String>, o: &Option<String>)
    ensures
        final(out).deep_view() == old(out).deep_view() + enc_opt(opt_view(*o)),
{
    proof {
        reveal_strlit("+");
        reveal_strlit("-");
    }
    match o {
        Some(s) => {
            push_str(out, "+");
            push_str(out, s.as_str());
        },
        None => {
            push_str(out, "-");
        },
    }
    assert(final(out).deep_view() =~= old(out).deep_view() + enc_opt(opt_view(*o)));
}

fn push_strings(out: &mut Vec<String>, v: &Vec<String>)
    ensures
        final(out).deep_view() == old(out).deep_view() + enc_strings(v.deep_view()),
{
    push_str(out, decimal_string(v.len() as u64).as_str());
    let ghost start = out.deep_view();
    let mut i: usize = 0;
    while i < v.len()
        invariant
            i <= v@.len(),
            out.deep_view() == start + v.deep_view().take(i as int),
        decreases v@.len() - i,
    {
        push_str(out, v[i].as_str());
        i = i + 1;
        assert(out.deep_view() =~= start + v.deep_view().take(i as int));
    }
    assert(v.deep_view().take(i as int) =~= v.deep_view());
    assert(final(out).deep_view() =~= old(out).deep_view() + enc_strings(v.deep_view()));
}

fn push_opt_strings(out: &mut Vec<String>, o: &Option<Vec<String>>)
    ensures
        final(out).deep_view() == old(out).deep_view() + enc_opt_strings(opt_list_view(*o)),
{
    proof {
        reveal_strlit("+");
        reveal_strlit("-");
    }
    match o {
        Some(v) => {
            push_str(out, "+");
            push_strings(out, v);
        },
        None => {
            push_str(out, "-");
        },
    }
    assert(final(out).deep_view() =~= old(out).deep_view() + enc_opt_strings(opt_list_view(*o)));
}

fn push_mounts(out: &mut Vec<String>, ms: &Vec<Mount>)
    ensures
        final(out).deep_view() == old(out).deep_view() + seq![decimal(ms@.len() as nat)]
            + enc_mount_items(ms@.map_values(|m: Mount| m@)),
{
    proof {
        reveal_strlit("ro");
        reveal_strlit("rw");
    }
    let ghost mv = ms@.map_values(|m: Mount| m@);
    push_str(out, decimal_string(ms.len() as u64).as_str());
    let ghost start = out.deep_view();
    let mut i: usize = 0;
    while i < ms.len()
        invariant
            i <= ms@.len(),
            mv == ms@.map_values(|m: Mount| m@),
            out.deep_view() == start + enc_mount_items(mv.take(i as int)),
        decreases ms@.len() - i,
    {
        let m = &ms[i];
        push_opt(out, &m.source);
        push_str(out, m.target.as_str());
        if m.read_only {
            push_str(out, "ro");
        } else {
            push_str(out, "rw");
        }
        assert(mv.take(i + 1).drop_last() =~= mv.take(i as int));
        i = i + 1;
        assert(out.deep_view() =~= start + enc_mount_items(mv.take(i as int)));
    }
    assert(mv.take(i as int) =~= mv);
    assert(final(out).deep_view() =~= old(out).deep_view() + seq![decimal(ms@.len() as nat)]
        + enc_mount_items(mv));
}

fn push_pairs(out: &mut Vec<String>, ps: &Vec<(String, String)>)
    ensures
        final(out).deep_view() == old(out).deep_view() + seq![decimal(ps@.len() as nat)]
            + enc_pair_items(ps.deep_view()),
{
    let ghost pv = ps.deep_view();
    push_str(out, decimal_string(ps.len() as u64).as_str());
    let ghost start = out.deep_view();
    let mut i: usize = 0;
    while i < ps.len()
        invariant
            i <= ps@.len(),
            pv == ps.deep_view(),
            out.deep_view() == start + enc_pair_items(pv.take(i as int)),
        decreases ps@.len() - i,
    {
        push_str(out, ps[i].0.as_str());
        push_str(out, ps[i].1.as_str());
        assert(pv.take(i + 1).drop_last() =~= pv.take(i as int));
        i = i + 1;
        assert(out.deep_view() =~= start + enc_pair_items(pv.take(i as int)));
    }
    assert(pv.take(i as int) =~= pv);
    assert(final(out).deep_view() =~= old(out).deep_view() + seq![decimal(ps@.len() as nat)]
        + enc_pair_items(pv));
}

fn push_ports(out: &mut Vec<String>, ps: &Vec<PortMapping>)
    ensures
        final(out).deep_view() == old(out).deep_view() + seq![decimal(ps@.len() as nat)]
            + enc_port_items(ps@.map_values(|p: PortMapping| p@)),
{
    let ghost pv = ps@.map_values(|p: PortMapping| p@);
    push_str(out, decimal_string(ps.len() as u64).as_str());
    let ghost start = out.deep_view();
    let mut i: usize = 0;
    while i < ps.len()
        invariant
            i <= ps@.len(),
            pv == ps@.map_values(|p: PortMapping| p@),
            out.deep_view() == start + enc_port_items(pv.take(i as int)),
        decreases ps@.len() - i,
    {
        let p = &ps[i];
        push_str(out, decimal_string(p.container_port as u64).as_str());
        push_str(out, decimal_string(p.host_port as u64).as_str());
        push_str(out, p.protocol.as_str());
        assert(pv.take(i + 1).drop_last() =~= pv.take(i as int));
        i = i + 1;
        assert(out.deep_view() =~= start + enc_port_items(pv.take(i as int)));
    }
    assert(pv.take(i as int) =~= pv);
    assert(final(out).deep_view() =~= old(out).deep_view() + seq![decimal(ps@.len() as nat)]
        + enc_port_items(pv));
}

impl RunContainerInput {
    pub fn get_user(&self) -> (r: String)
        ensures
            r@ == user_string(opt_view(self.user), opt_view(self.group)),
    {
        match (&self.user, &self.group) {
            (Some(user), Some(group)) => {
                let mut s = user.clone();
                s.append(":");
                s.append(group.as_str());
                s
            },
            (Some(user), None) => user.clone(),
            (None, _) => String::new(),
        }
    }

    /// The volume strings of the mounts, in order.
    pub fn volumes(&self) -> (r: Vec<String>)
        ensures
            r.deep_view() == self@.mounts.map_values(|m: MountView| volume_string(m)),
    {
        let ghost mv = self@.mounts;
        let mut out: Vec<String> = Vec::new();
        let mut i: usize = 0;
        while i < self.mounts.len()
            invariant
                i <= self.mounts@.len(),
                mv == self@.mounts,
                out.deep_view() == mv.take(i as int).map_values(|m: MountView| volume_string(m)),
            decreases self.mounts@.len() - i,
        {
            let v = self.mounts[i].to_string();
            assert(mv[i as int] == self.mounts@[i as int]@);
            let ghost before = out.deep_view();
            out.push(v);
            assert(out.deep_view() =~= before.push(v@));
            assert(mv.take(i + 1) =~= mv.take(i as int).push(mv[i as int]));
            i = i + 1;
            assert(out.deep_view() =~= mv.take(i as int).map_values(
                |m: MountView| volume_string(m),
            ));
        }
        assert(mv.take(i as int) =~= mv);
        out
    }

    /// The canonical encoding of this specification.
    pub fn canonical_fields(&self) -> (r: Vec<String>)
        ensures
            r.deep_view() == encode(self@),
    {
        let mut out: Vec<String> = Vec::new();
        push_str(&mut out, self.image.as_str());
        push_str(&mut out, self.name.as_str());
        push_str(&mut out, self.network.as_str());
        push_opt(&mut out, &self.user);
        push_opt(&mut out, &self.group);
        push_mounts(&mut out, &self.mounts);
        push_pairs(&mut out, &self.environment_vars);
        push_opt_strings(&mut out, &self.command_args);
        push_opt_strings(&mut out, &self.entrypoint);
        push_pairs(&mut out, &self.labels);
        push_ports(&mut out, &self.port_mappings);
        assert(out.deep_view() =~= encode(self@));
        out
    }

    /// A fingerprint of the whole specification: equal specifications give equal hashes.
    pub fn get_hash(self) -> (r: u64)
        ensures
            r == strings_hash(encode(self@)),
    {
        let fields = self.canonical_fields();
        hash_strings(&fields)
    }
}

} // verus!
