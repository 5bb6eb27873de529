//! The build matrix: the supported platform/architecture triples, the
//! platform selection, and the fixed table grouping triples into merged
//! variants (one platform-level bundle per variant).

use vstd::prelude::*;

verus! {

/// A supported platform+architecture target triple.
#[derive(Clone, Copy, Debug, PartialEq, Eq, Structural)]
pub enum Triple {
    Aarch64Darwin,
    X8664Darwin,
    Aarch64Ios,
    Aarch64IosSim,
    X8664Ios,
}

/// A merged variant: a platform-level grouping of triples whose binaries are
/// combined into one multi-architecture binary. The desktop architectures
/// always merge into one universal variant; the mobile simulator
/// architectures merge into one simulator variant; the mobile device
/// architecture stays a single-target (degenerate) variant. This asymmetry is
/// fixed: device binaries are single-architecture, simulator binaries must
/// support several host architectures.
#[derive(Clone, Copy, Debug, PartialEq, Eq, Structural)]
pub enum Variant {
    MacosUniversal,
    IosSimulator,
    IosDevice,
}

impl Triple {
    /// The triple's canonical spelling.
    pub open spec fn str_spec(self) -> Seq<char> {
        match self {
            Triple::Aarch64Darwin => "aarch64-apple-darwin"@,
            Triple::X8664Darwin => "x86_64-apple-darwin"@,
            Triple::Aarch64Ios => "aarch64-apple-ios"@,
            Triple::Aarch64IosSim => "aarch64-apple-ios-sim"@,
            Triple::X8664Ios => "x86_64-apple-ios"@,
        }
    }

    pub fn as_str(self) -> (r: &'static str)
        ensures
            r@ == self.str_spec(),
    {
        match self {
            Triple::Aarch64Darwin => "aarch64-apple-darwin",
            Triple::X8664Darwin => "x86_64-apple-darwin",
            Triple::Aarch64Ios => "aarch64-apple-ios",
            Triple::Aarch64IosSim => "aarch64-apple-ios-sim",
            Triple::X8664Ios => "x86_64-apple-ios",
        }
    }

    /// Whether `s` spells a supported triple.
    pub open spec fn supported(s: Seq<char>) -> bool {
        exists|t: Triple| t.str_spec() == s
    }

    /// Parses a triple; `None` exactly on unsupported identifiers.
    pub fn parse(s: &str) -> (r: Option<Triple>)
        ensures
            match r {
                Some(t) => t.str_spec() == s@,
                None => !Triple::supported(s@),
            },
    {
        if crate::strutil::str_eq(s, "aarch64-apple-darwin") {
            Some(Triple::Aarch64Darwin)
        } else if crate::strutil::str_eq(s, "x86_64-apple-darwin") {
            Some(Triple::X8664Darwin)
        } else if crate::strutil::str_eq(s, "aarch64-apple-ios") {
            Some(Triple::Aarch64Ios)
        } else if crate::strutil::str_eq(s, "aarch64-apple-ios-sim") {
            Some(Triple::Aarch64IosSim)
        } else if crate::strutil::str_eq(s, "x86_64-apple-ios") {
            Some(Triple::X8664Ios)
        } else {
            proof {
                assert forall|t: Triple| t.str_spec() != s@ by {
                    match t {
                        Triple::Aarch64Darwin => assert(t.str_spec() != s@),
                        Triple::X8664Darwin => assert(t.str_spec() != s@),
                        Triple::Aarch64Ios => assert(t.str_spec() != s@),
                        Triple::Aarch64IosSim => assert(t.str_spec() != s@),
                        Triple::X8664Ios => assert(t.str_spec() != s@),
                    }
                }
            }
            None
        }
    }

    /// Whether this triple builds against the mobile platform family.
    pub open spec fn is_ios_family(self) -> bool {
        match self {
            Triple::Aarch64Ios | Triple::Aarch64IosSim | Triple::X8664Ios => true,
            _ => false,
        }
    }

    /// The architecture name embedded in the triple.
    pub open spec fn arch_spec(self) -> Seq<char> {
        match self {
            Triple::Aarch64Darwin | Triple::Aarch64Ios | Triple::Aarch64IosSim => "arm64"@,
            Triple::X8664Darwin | Triple::X8664Ios => "x86_64"@,
        }
    }

    /// The architecture directory name for the triple's module sidecars.
    pub fn arch(self) -> (r: &'static str)
        ensures
            r@ == self.arch_spec(),
    {
        match self {
            Triple::Aarch64Darwin | Triple::Aarch64Ios | Triple::Aarch64IosSim => "arm64",
            Triple::X8664Darwin | Triple::X8664Ios => "x86_64",
        }
    }

    /// The merged variant this triple contributes to. Every triple belongs to
    /// exactly one variant.
    pub open spec fn variant_of(self) -> Variant {
        match self {
            Triple::Aarch64Darwin | Triple::X8664Darwin => Variant::MacosUniversal,
            Triple::Aarch64Ios => Variant::IosDevice,
            Triple::Aarch64IosSim | Triple::X8664Ios => Variant::IosSimulator,
        }
    }
}

impl Variant {
    /// The directory name of the variant's platform-level bundle slot. The
    /// degenerate device variant keeps its triple's own name.
    pub open spec fn str_spec(self) -> Seq<char> {
        match self {
            Variant::MacosUniversal => "macos-universal"@,
            Variant::IosSimulator => "ios-simulator"@,
            Variant::IosDevice => "aarch64-apple-ios"@,
        }
    }

    pub fn as_str(self) -> (r: &'static str)
        ensures
            r@ == self.str_spec(),
    {
        match self {
            Variant::MacosUniversal => "macos-universal",
            Variant::IosSimulator => "ios-simulator",
            Variant::IosDevice => "aarch64-apple-ios",
        }
    }

    /// The fixed table of contributing triples, in merge order.
    pub open spec fn members_spec(self) -> Seq<Triple> {
        match self {
            Variant::MacosUniversal => seq![Triple::Aarch64Darwin, Triple::X8664Darwin],
            Variant::IosSimulator => seq![Triple::Aarch64IosSim, Triple::X8664Ios],
            Variant::IosDevice => seq![Triple::Aarch64Ios],
        }
    }

    pub fn members(self) -> (r: Vec<Triple>)
        ensures
            r@ == self.members_spec(),
    {
        let mut v: Vec<Triple> = Vec::new();
        match self {
            Variant::MacosUniversal => {
                v.push(Triple::Aarch64Darwin);
                v.push(Triple::X8664Darwin);
            },
            Variant::IosSimulator => {
                v.push(Triple::Aarch64IosSim);
                v.push(Triple::X8664Ios);
            },
            Variant::IosDevice => {
                v.push(Triple::Aarch64Ios);
            },
        }
        proof {
            assert(v@ =~= self.members_spec());
        }
        v
    }

    /// Whether the variant merges only one contributing triple, so its merge
    /// is a plain copy with no binary combination.
    pub open spec fn is_degenerate(self) -> bool {
        self.members_spec().len() == 1
    }
}

/// The platform selection: one family, the other, or both. Built from the two
/// restriction flags; no restriction (or both) selects both families.
#[derive(Clone, Copy, Debug, PartialEq, Eq, Structural)]
pub enum BuildTarget {
    Ios,
    MacOS,
    Both,
}

impl BuildTarget {
    /// Selection from the two family flags: both or neither selects both.
    pub fn select(want_ios: bool, want_macos: bool) -> (r: BuildTarget)
        ensures
            r == BuildTarget::select_spec(want_ios, want_macos),
    {
        match (want_ios, want_macos) {
            (true, true) | (false, false) => BuildTarget::Both,
            (true, false) => BuildTarget::Ios,
            (false, true) => BuildTarget::MacOS,
        }
    }

    pub open spec fn select_spec(want_ios: bool, want_macos: bool) -> BuildTarget {
        if want_ios == want_macos {
            BuildTarget::Both
        } else if want_ios {
            BuildTarget::Ios
        } else {
            BuildTarget::MacOS
        }
    }

    pub open spec fn is_ios_spec(self) -> bool {
        self == BuildTarget::Ios || self == BuildTarget::Both
    }

    pub open spec fn is_macos_spec(self) -> bool {
        self == BuildTarget::MacOS || self == BuildTarget::Both
    }

    pub fn is_ios(&self) -> (r: bool)
        ensures
            r == self.is_ios_spec(),
    {
        matches!(self, BuildTarget::Ios | BuildTarget::Both)
    }

    pub fn is_macos(&self) -> (r: bool)
        ensures
            r == self.is_macos_spec(),
    {
        matches!(self, BuildTarget::MacOS | BuildTarget::Both)
    }

    /// Whether `t` is in scope under this selection.
    pub open spec fn triple_in_scope(self, t: Triple) -> bool {
        if t.is_ios_family() {
            self.is_ios_spec()
        } else {
            self.is_macos_spec()
        }
    }

    /// The in-scope triples, in synthesis order: the mobile family first.
    pub open spec fn triples_spec(self) -> Seq<Triple> {
        let ios = seq![Triple::Aarch64Ios, Triple::Aarch64IosSim, Triple::X8664Ios];
        let mac = seq![Triple::Aarch64Darwin, Triple::X8664Darwin];
        if self == BuildTarget::Both {
            ios + mac
        } else if self == BuildTarget::Ios {
            ios
        } else {
            mac
        }
    }

    /// The concrete triples to build and synthesize bundles for.
    pub fn triples(&self) -> (r: Vec<Triple>)
        ensures
            r@ == self.triples_spec(),
            forall|i: int| 0 <= i < r@.len() ==> self.triple_in_scope(#[trigger] r@[i]),
    {
        let mut v: Vec<Triple> = Vec::new();
        if self.is_ios() {
            v.push(Triple::Aarch64Ios);
            v.push(Triple::Aarch64IosSim);
            v.push(Triple::X8664Ios);
        }
        if self.is_macos() {
            v.push(Triple::Aarch64Darwin);
            v.push(Triple::X8664Darwin);
        }
        proof {
            assert(v@ =~= self.triples_spec());
        }
        v
    }

    /// The in-scope merged variants, in assembly order.
    pub open spec fn variants_spec(self) -> Seq<Variant> {
        let ios = seq![Variant::IosDevice, Variant::IosSimulator];
        let mac = seq![Variant::MacosUniversal];
        if self == BuildTarget::Both {
            ios + mac
        } else if self == BuildTarget::Ios {
            ios
        } else {
            mac
        }
    }

    /// The merged variants whose platform-level bundles feed the umbrella
    /// container under this selection.
    pub fn framework_targets(&self) -> (r: Vec<Variant>)
        ensures
            r@ == self.variants_spec(),
    {
        let mut v: Vec<Variant> = Vec::new();
        if self.is_ios() {
            v.push(Variant::IosDevice);
            v.push(Variant::IosSimulator);
        }
        if self.is_macos() {
            v.push(Variant::MacosUniversal);
        }
        proof {
            assert(v@ =~= self.variants_spec());
        }
        v
    }
}

/// The mobile-family triples in native-compiler build order.
pub open spec fn ios_triples_spec() -> Seq<Triple> {
    seq![Triple::X8664Ios, Triple::Aarch64Ios, Triple::Aarch64IosSim]
}

pub fn ios_triples() -> (r: Vec<Triple>)
    ensures
        r@ == ios_triples_spec(),
{
    let mut v: Vec<Triple> = Vec::new();
    v.push(Triple::X8664Ios);
    v.push(Triple::Aarch64Ios);
    v.push(Triple::Aarch64IosSim);
    proof {
        assert(v@ =~= ios_triples_spec());
    }
    v
}

/// The desktop-family triples in native-compiler build order.
pub open spec fn macos_triples_spec() -> Seq<Triple> {
    seq![Triple::X8664Darwin, Triple::Aarch64Darwin]
}

pub fn macos_triples() -> (r: Vec<Triple>)
    ensures
        r@ == macos_triples_spec(),
{
    let mut v: Vec<Triple> = Vec::new();
    v.push(Triple::X8664Darwin);
    v.push(Triple::Aarch64Darwin);
    proof {
        assert(v@ =~= macos_triples_spec());
    }
    v
}

/// The in-scope triples in native-compiler build order: the mobile family
/// first, then the desktop family.
pub open spec fn build_order_spec(sel: BuildTarget) -> Seq<Triple> {
    (if sel.is_ios_spec() {
        ios_triples_spec()
    } else {
        Seq::empty()
    }) + (if sel.is_macos_spec() {
        macos_triples_spec()
    } else {
        Seq::empty()
    })
}

pub fn build_order(sel: &BuildTarget) -> (r: Vec<Triple>)
    ensures
        r@ == build_order_spec(*sel),
{
    let mut v: Vec<Triple> = Vec::new();
    if sel.is_ios() {
        v.push(Triple::X8664Ios);
        v.push(Triple::Aarch64Ios);
        v.push(Triple::Aarch64IosSim);
    }
    if sel.is_macos() {
        v.push(Triple::X8664Darwin);
        v.push(Triple::Aarch64Darwin);
    }
    proof {
        assert(v@ =~= build_order_spec(*sel));
    }
    v
}

/// The variant table partitions the in-scope triples: under any selection,
/// a triple is in scope exactly when its variant is among the selection's
/// merged variants; every contributing triple of an in-scope variant is
/// itself in scope; and no triple contributes to two variants. Together with
/// each triple contributing to its own variant, every in-scope triple belongs
/// to exactly one in-scope merged variant.
pub proof fn lemma_variant_partition(sel: BuildTarget)
    ensures
        forall|t: Triple| #[trigger]
            sel.triples_spec().contains(t) <==> sel.variants_spec().contains(t.variant_of()),
        forall|t: Triple| #[trigger] t.variant_of().members_spec().contains(t),
        forall|v: Variant, t: Triple|
            sel.variants_spec().contains(v) && #[trigger] v.members_spec().contains(t)
                ==> sel.triples_spec().contains(t),
        forall|v1: Variant, v2: Variant, t: Triple|
            #[trigger] v1.members_spec().contains(t) && #[trigger] v2.members_spec().contains(t)
                ==> v1 == v2,
{
    assert forall|t: Triple| #[trigger]
        sel.triples_spec().contains(t) <==> sel.variants_spec().contains(t.variant_of()) by {
        lemma_scope_table(sel, t);
    }
    assert forall|t: Triple| #[trigger] t.variant_of().members_spec().contains(t) by {
        lemma_member_of_own_variant(t);
    }
    assert forall|v: Variant, t: Triple|
        sel.variants_spec().contains(v) && #[trigger] v.members_spec().contains(t)
        implies sel.triples_spec().contains(t) by {
        lemma_members_variant(v, t);
        lemma_scope_table(sel, t);
    }
    assert forall|v1: Variant, v2: Variant, t: Triple|
        #[trigger] v1.members_spec().contains(t) && #[trigger] v2.members_spec().contains(t)
        implies v1 == v2 by {
        lemma_members_variant(v1, t);
        lemma_members_variant(v2, t);
    }
}

/// A triple stands among its own variant's contributing members.
proof fn lemma_member_of_own_variant(t: Triple)
    ensures
        t.variant_of().members_spec().contains(t),
{
    match t {
        Triple::Aarch64Darwin => assert(Variant::MacosUniversal.members_spec()[0] == t),
        Triple::X8664Darwin => assert(Variant::MacosUniversal.members_spec()[1] == t),
        Triple::Aarch64Ios => assert(Variant::IosDevice.members_spec()[0] == t),
        Triple::Aarch64IosSim => assert(Variant::IosSimulator.members_spec()[0] == t),
        Triple::X8664Ios => assert(Variant::IosSimulator.members_spec()[1] == t),
    }
}

/// Membership in a variant's table determines the variant.
proof fn lemma_members_variant(v: Variant, t: Triple)
    requires
        v.members_spec().contains(t),
    ensures
        t.variant_of() == v,
{
    let i = choose|i: int| 0 <= i < v.members_spec().len() && v.members_spec()[i] == t;
    assert(v.members_spec()[i] == t);
}

/// Scope of a triple and scope of its variant agree under every selection.
proof fn lemma_scope_table(sel: BuildTarget, t: Triple)
    ensures
        sel.triples_spec().contains(t) <==> sel.variants_spec().contains(t.variant_of()),
        sel.triples_spec().contains(t) <==> sel.triple_in_scope(t),
{
    let ts = sel.triples_spec();
    let vs = sel.variants_spec();
    if sel.triple_in_scope(t) {
        match t {
            Triple::Aarch64Ios => {
                assert(ts[0] == t);
                assert(vs[0] == t.variant_of());
            },
            Triple::Aarch64IosSim => {
                assert(ts[1] == t);
                assert(vs[1] == t.variant_of());
            },
            Triple::X8664Ios => {
                assert(ts[2] == t);
                assert(vs[1] == t.variant_of());
            },
            Triple::Aarch64Darwin => {
                assert(ts[ts.len() - 2] == t);
                assert(vs[vs.len() - 1] == t.variant_of());
            },
            Triple::X8664Darwin => {
                assert(ts[ts.len() - 1] == t);
                assert(vs[vs.len() - 1] == t.variant_of());
            },
        }
    } else {
        assert forall|i: int| 0 <= i < ts.len() implies ts[i] != t by {}
        assert forall|i: int| 0 <= i < vs.len() implies vs[i] != t.variant_of() by {}
        assert(!ts.contains(t));
        assert(!vs.contains(t.variant_of()));
    }
}

} // verus!
