//! The hardware-topology resolver: radix-prefixed numeric literals, the
//! MEMRANGE span computation, and the mapping from an instance path to a
//! typed [`Ip`] descriptor.
//!
//! The hierarchical description itself arrives as plain records — one per
//! MODULE and MEMRANGE element — extracted from the external document by the
//! caller; everything from the records to the finished topology is computed
//! here.

use vstd::prelude::*;

use crate::errors::Error;
use crate::text::str_eq;

verus! {

/// The digit value of `c` in the given radix, or `-1` when `c` is no digit
/// of that radix.  Letters of either case carry the values ten and up.
pub open spec fn spec_digit_val(c: char, radix: u32) -> int {
    let u = c as u32;
    let d: int = if 48 <= u <= 57 {
        u - 48
    } else if 97 <= u <= 122 {
        u - 97 + 10
    } else if 65 <= u <= 90 {
        u - 65 + 10
    } else {
        -1
    };
    if 0 <= d < radix {
        d
    } else {
        -1
    }
}

/// Whether every character of `s` is a digit of the given radix.
pub open spec fn spec_all_digits(s: Seq<char>, radix: u32) -> bool {
    forall|i: int| 0 <= i < s.len() ==> spec_digit_val(s[i], radix) >= 0
}

/// The numeric value of the digit string `s` in the given radix.
pub open spec fn spec_radix_val(s: Seq<char>, radix: u32) -> int
    decreases s.len(),
{
    if s.len() == 0 {
        0
    } else {
        spec_radix_val(s.drop_last(), radix) * radix + spec_digit_val(s.last(), radix)
    }
}

/// The radix a literal declares through a prefix beginning with a zero:
/// `0b`, `0o` and `0x` (either letter case) select 2, 8 and 16.  A literal
/// that does not start with such a prefix, or has at most two characters,
/// is decimal.
pub open spec fn spec_radix_of(s: Seq<char>) -> u32 {
    if s.len() > 2 && s[0] == '0' {
        if s[1] == 'b' || s[1] == 'B' {
            2
        } else if s[1] == 'o' || s[1] == 'O' {
            8
        } else if s[1] == 'x' || s[1] == 'X' {
            16
        } else {
            10
        }
    } else {
        10
    }
}

/// The digit characters of a literal: what follows the two-character radix
/// prefix (if any) and an optional plus sign.
pub open spec fn spec_digits_of(s: Seq<char>) -> Seq<char> {
    let u = if spec_radix_of(s) == 10 {
        s
    } else {
        s.skip(2)
    };
    if u.len() > 0 && u[0] == '+' {
        u.skip(1)
    } else {
        u
    }
}

/// Whether the literal parses: at least one digit, every character a digit
/// of the declared radix, and a value that fits the machine word.
pub open spec fn spec_parse_ok(s: Seq<char>) -> bool {
    let d = spec_digits_of(s);
    &&& d.len() > 0
    &&& spec_all_digits(d, spec_radix_of(s))
    &&& spec_radix_val(d, spec_radix_of(s)) <= usize::MAX
}

/// The value of the literal.
pub open spec fn spec_parse_val(s: Seq<char>) -> int {
    spec_radix_val(spec_digits_of(s), spec_radix_of(s))
}

fn digit_val(c: char, radix: u32) -> (r: Option<u32>)
    ensures
        spec_digit_val(c, radix) >= 0 ==> r == Some(spec_digit_val(c, radix) as u32),
        spec_digit_val(c, radix) < 0 ==> r is None,
{
    let u = c as u32;
    let d: u32 = if 48 <= u && u <= 57 {
        u - 48
    } else if 97 <= u && u <= 122 {
        u - 97 + 10
    } else if 65 <= u && u <= 90 {
        u - 65 + 10
    } else {
        return None;
    };
    if d < radix {
        Some(d)
    } else {
        None
    }
}

proof fn lemma_radix_val_nonneg(s: Seq<char>, radix: u32)
    requires
        spec_all_digits(s, radix),
    ensures
        spec_radix_val(s, radix) >= 0,
    decreases s.len(),
{
    if s.len() > 0 {
        assert(spec_all_digits(s.drop_last(), radix));
        lemma_radix_val_nonneg(s.drop_last(), radix);
        let v = spec_radix_val(s.drop_last(), radix);
        assert(v * radix >= 0) by (nonlinear_arith)
            requires
                v >= 0,
                radix >= 0,
        ;
    }
}

proof fn lemma_radix_val_prefix_le(s: Seq<char>, radix: u32, k: int)
    requires
        spec_all_digits(s, radix),
        radix >= 2,
        0 <= k <= s.len(),
    ensures
        spec_radix_val(s.take(k), radix) <= spec_radix_val(s, radix),
    decreases s.len() - k,
{
    if k < s.len() {
        lemma_radix_val_prefix_le(s, radix, k + 1);
        let t = s.take(k + 1);
        assert(t.drop_last() =~= s.take(k));
        assert(t.last() == s[k]);
        let v = spec_radix_val(s.take(k), radix);
        assert(spec_all_digits(s.take(k), radix));
        lemma_radix_val_nonneg(s.take(k), radix);
        assert(v * radix >= v) by (nonlinear_arith)
            requires
                v >= 0,
                radix >= 2,
        ;
        assert(spec_radix_val(t, radix) >= v);
    } else {
        assert(s.take(k) =~= s);
    }
}

/// Parse a numeric literal whose radix is declared by a zero-led `0b`,
/// `0o` or `0x` prefix, defaulting to decimal: an incorrectly prefixed
/// literal is rejected rather than silently read as decimal.
pub fn parse_with_prefix(s: &str) -> (r: Result<usize, Error>)
    ensures
        match r {
            Ok(v) => spec_parse_ok(s@) && v == spec_parse_val(s@),
            Err(e) => e == Error::Parse && !spec_parse_ok(s@),
        },
{
    let n = s.unicode_len();
    let radix: u32 = if n > 2 && s.get_char(0) == '0' {
        let c1 = s.get_char(1);
        if c1 == 'b' || c1 == 'B' {
            2
        } else if c1 == 'o' || c1 == 'O' {
            8
        } else if c1 == 'x' || c1 == 'X' {
            16
        } else {
            10
        }
    } else {
        10
    };
    let unsigned_start: usize = if radix == 10 {
        0
    } else {
        2
    };
    let start: usize = if unsigned_start < n && s.get_char(unsigned_start) == '+' {
        unsigned_start + 1
    } else {
        unsigned_start
    };
    let ghost digits = spec_digits_of(s@);
    proof {
        assert(digits =~= s@.skip(start as int));
    }
    if start >= n {
        return Err(Error::Parse);
    }
    let mut acc: usize = 0;
    let mut i: usize = start;
    while i < n
        invariant
            n == s@.len(),
            start <= i <= n,
            radix == spec_radix_of(s@),
            2 <= radix <= 16,
            digits == spec_digits_of(s@),
            digits =~= s@.skip(start as int),
            spec_all_digits(digits.take(i - start), radix),
            acc == spec_radix_val(digits.take(i - start), radix),
        decreases n - i,
    {
        let c = s.get_char(i);
        proof {
            assert(digits[i - start] == c);
        }
        let d = match digit_val(c, radix) {
            Some(d) => d,
            None => {
                proof {
                    assert(!spec_all_digits(digits, radix));
                }
                return Err(Error::Parse);
            },
        };
        let ghost prev = digits.take(i - start);
        let ghost cur = digits.take(i + 1 - start);
        proof {
            assert(cur.drop_last() =~= prev);
            assert(cur.last() == digits[i - start]);
        }
        let shifted = match acc.checked_mul(radix as usize) {
            Some(v) => v,
            None => {
                proof {
                    lemma_overflow_implies_too_big(digits, radix, i - start, s@);
                }
                return Err(Error::Parse);
            },
        };
        let next = match shifted.checked_add(d as usize) {
            Some(v) => v,
            None => {
                proof {
                    lemma_overflow_implies_too_big(digits, radix, i - start, s@);
                }
                return Err(Error::Parse);
            },
        };
        acc = next;
        i = i + 1;
    }
    proof {
        assert(digits.take(n - start) =~= digits);
    }
    Ok(acc)
}

proof fn lemma_overflow_implies_too_big(digits: Seq<char>, radix: u32, j: int, s: Seq<char>)
    requires
        digits == spec_digits_of(s),
        radix == spec_radix_of(s),
        2 <= radix <= 16,
        0 <= j < digits.len(),
        spec_all_digits(digits.take(j), radix),
        spec_digit_val(digits[j], radix) >= 0,
        spec_radix_val(digits.take(j), radix) * radix + spec_digit_val(digits[j], radix)
            > usize::MAX,
    ensures
        !spec_parse_ok(s),
{
    if spec_all_digits(digits, radix) {
        let cur = digits.take(j + 1);
        assert(cur.drop_last() =~= digits.take(j));
        assert(cur.last() == digits[j]);
        assert(spec_radix_val(cur, radix) > usize::MAX);
        lemma_radix_val_prefix_le(digits, radix, j + 1);
    }
}

/// The identity and register span of one resolved hardware block.
#[derive(Clone, Debug)]
pub struct Ip {
    /// The full instance path in the design hierarchy.
    pub fullname: String,
    /// The bare instance name.
    pub instname: String,
    /// The vendor:library:name:version identity tag.
    pub vlnv: String,
    /// The block-design type, empty when the description gives none.
    pub bdtype: String,
    /// The base address of the register window.
    pub phys_addr: usize,
    /// The size of the register window in bytes.
    pub addr_range: usize,
}

/// The ghost image of an [`Ip`]: the same fields as character sequences and
/// unbounded integers.
pub struct IpModel {
    pub fullname: Seq<char>,
    pub instname: Seq<char>,
    pub vlnv: Seq<char>,
    pub bdtype: Seq<char>,
    pub phys_addr: int,
    pub addr_range: int,
}

impl View for Ip {
    type V = IpModel;

    open spec fn view(&self) -> IpModel {
        IpModel {
            fullname: self.fullname@,
            instname: self.instname@,
            vlnv: self.vlnv@,
            bdtype: self.bdtype@,
            phys_addr: self.phys_addr as int,
            addr_range: self.addr_range as int,
        }
    }
}

/// Compute the `(base_address, size)` pair of a MEMRANGE entry from its two
/// literals: `size` is `high - base + 1`.  A literal that does not parse
/// gives [`Error::Parse`]; a span whose high address lies below its base, or
/// whose size leaves the machine word, gives [`Error::Configuration`].
pub fn memrange_span(base_s: &str, high_s: &str) -> (r: Result<(usize, usize), Error>)
    ensures
        match r {
            Ok((base, size)) => {
                &&& spec_parse_ok(base_s@)
                &&& spec_parse_ok(high_s@)
                &&& base == spec_parse_val(base_s@)
                &&& spec_parse_val(base_s@) <= spec_parse_val(high_s@)
                &&& size == spec_parse_val(high_s@) - spec_parse_val(base_s@) + 1
            },
            Err(Error::Parse) => !spec_parse_ok(base_s@) || !spec_parse_ok(high_s@),
            Err(Error::Configuration) => {
                &&& spec_parse_ok(base_s@)
                &&& spec_parse_ok(high_s@)
                &&& (spec_parse_val(high_s@) < spec_parse_val(base_s@) || spec_parse_val(
                    high_s@,
                ) - spec_parse_val(base_s@) + 1 > usize::MAX)
            },
            Err(_) => false,
        },
{
    let base = parse_with_prefix(base_s)?;
    let high = parse_with_prefix(high_s)?;
    if high < base {
        return Err(Error::Configuration);
    }
    if high - base > usize::MAX - 1 {
        return Err(Error::Configuration);
    }
    Ok((base, high - base + 1))
}

/// One MODULE element of the hierarchical description, attributes as the
/// document gave them (absent attributes stay absent).
#[derive(Debug)]
pub struct ModuleNode {
    pub instance: Option<String>,
    pub fullname: Option<String>,
    pub vlnv: Option<String>,
    pub bdtype: Option<String>,
}

/// One MEMRANGE element of the hierarchical description.
#[derive(Debug)]
pub struct MemRangeNode {
    pub instance: Option<String>,
    pub base_value: Option<String>,
    pub high_value: Option<String>,
}

/// Whether every MODULE element carries the three required attributes.
pub open spec fn spec_modules_ok(mods: Seq<ModuleNode>) -> bool {
    forall|i: int|
        0 <= i < mods.len() ==> (#[trigger] mods[i]).instance is Some && mods[i].fullname
            is Some && mods[i].vlnv is Some
}

/// The MODULE element bound to an instance name; when several share the
/// name, the one latest in the document wins.
pub open spec fn spec_find_module(mods: Seq<ModuleNode>, inst: Seq<char>) -> Option<
    ModuleNode,
>
    decreases mods.len(),
{
    if mods.len() == 0 {
        None
    } else if mods.last().instance is Some && mods.last().instance->0@ == inst {
        Some(mods.last())
    } else {
        spec_find_module(mods.drop_last(), inst)
    }
}

/// Whether some resolved entry already carries this instance path.
pub open spec fn spec_has_name(ips: Seq<IpModel>, name: Seq<char>) -> bool {
    exists|i: int| 0 <= i < ips.len() && (#[trigger] ips[i]).fullname == name
}

/// Insert an entry, replacing the one that already carries its instance
/// path if any.
pub open spec fn spec_upsert(ips: Seq<IpModel>, ip: IpModel) -> Seq<IpModel> {
    if spec_has_name(ips, ip.fullname) {
        ips.update(
            choose|i: int| 0 <= i < ips.len() && (#[trigger] ips[i]).fullname == ip.fullname,
            ip,
        )
    } else {
        ips.push(ip)
    }
}

/// The descriptor a MEMRANGE element resolves to, given its MODULE.
pub open spec fn spec_resolved_ip(m: ModuleNode, mr: MemRangeNode) -> IpModel {
    IpModel {
        fullname: m.fullname->0@,
        instname: mr.instance->0@,
        vlnv: m.vlnv->0@,
        bdtype: if m.bdtype is Some {
            m.bdtype->0@
        } else {
            Seq::empty()
        },
        phys_addr: spec_parse_val(mr.base_value->0@),
        addr_range: spec_parse_val(mr.high_value->0@) - spec_parse_val(mr.base_value->0@)
            + 1,
    }
}

/// The topology that the MEMRANGE elements resolve to, processed in
/// document order on top of `acc`: an element whose instance has no MODULE
/// is skipped; one with a missing attribute stops the resolution with
/// [`Error::Configuration`]; an unparsable literal stops it with
/// [`Error::Parse`]; an inverted or oversized span stops it with
/// [`Error::Configuration`].
pub open spec fn spec_build(
    mods: Seq<ModuleNode>,
    mrs: Seq<MemRangeNode>,
    acc: Seq<IpModel>,
) -> Result<Seq<IpModel>, Error>
    decreases mrs.len(),
{
    if mrs.len() == 0 {
        Ok(acc)
    } else {
        let mr = mrs.first();
        if !(mr.instance is Some) {
            Err(Error::Configuration)
        } else {
            match spec_find_module(mods, mr.instance->0@) {
                None => spec_build(mods, mrs.drop_first(), acc),
                Some(m) => {
                    if !(mr.base_value is Some) || !(mr.high_value is Some) {
                        Err(Error::Configuration)
                    } else if !spec_parse_ok(mr.base_value->0@) || !spec_parse_ok(
                        mr.high_value->0@,
                    ) {
                        Err(Error::Parse)
                    } else if spec_parse_val(mr.high_value->0@) < spec_parse_val(
                        mr.base_value->0@,
                    ) || spec_parse_val(mr.high_value->0@) - spec_parse_val(mr.base_value->0@)
                        + 1 > usize::MAX {
                        Err(Error::Configuration)
                    } else {
                        spec_build(
                            mods,
                            mrs.drop_first(),
                            spec_upsert(acc, spec_resolved_ip(m, mr)),
                        )
                    }
                },
            }
        }
    }
}

/// The mapping from an instance path to its resolved [`Ip`] descriptor.
#[derive(Debug)]
pub struct Topology {
    ips: Vec<Ip>,
}

impl View for Topology {
    type V = Seq<IpModel>;

    closed spec fn view(&self) -> Seq<IpModel> {
        self.ips@.map_values(|ip: Ip| ip@)
    }
}

impl Topology {
    /// No two entries carry the same instance path.
    pub open spec fn unique_names(ips: Seq<IpModel>) -> bool {
        forall|i: int, j: int|
            0 <= i < j < ips.len() ==> (#[trigger] ips[i]).fullname != (
            #[trigger] ips[j]).fullname
    }

    /// How many blocks the topology resolved.
    pub fn len(&self) -> (r: usize)
        ensures
            r == self@.len(),
    {
        self.ips.len()
    }

    /// The descriptor bound to an instance path, or [`Error::NotFound`]
    /// when the topology holds no such path.
    pub fn lookup(&self, path: &str) -> (r: Result<&Ip, Error>)
        ensures
            match r {
                Ok(ip) => exists|i: int|
                    {
                        &&& 0 <= i < self@.len()
                        &&& ip@ == self@[i]
                        &&& (#[trigger] self@[i]).fullname == path@
                        &&& forall|j: int| 0 <= j < i ==> self@[j].fullname != path@
                    },
                Err(e) => {
                    &&& e == Error::NotFound
                    &&& forall|i: int|
                        0 <= i < self@.len() ==> (#[trigger] self@[i]).fullname != path@
                },
            },
    {
        let mut i: usize = 0;
        while i < self.ips.len()
            invariant
                i <= self.ips@.len(),
                forall|j: int| 0 <= j < i ==> self@[j].fullname != path@,
            decreases self.ips@.len() - i,
        {
            if str_eq(self.ips[i].fullname.as_str(), path) {
                proof {
                    assert(self@[i as int] == self.ips@[i as int]@);
                }
                return Ok(&self.ips[i]);
            }
            proof {
                assert(self@[i as int] == self.ips@[i as int]@);
            }
            i = i + 1;
        }
        Err(Error::NotFound)
    }
}

fn find_module_index(mods: &Vec<ModuleNode>, inst: &str) -> (r: Option<usize>)
    ensures
        match r {
            Some(j) => j < mods@.len() && spec_find_module(mods@, inst@) == Some(mods@[j as int]),
            None => spec_find_module(mods@, inst@) is None,
        },
{
    let mut j: usize = mods.len();
    proof {
        assert(mods@.take(mods@.len() as int) =~= mods@);
    }
    while j > 0
        invariant
            j <= mods@.len(),
            spec_find_module(mods@, inst@) == spec_find_module(
                mods@.take(j as int),
                inst@,
            ),
        decreases j,
    {
        j = j - 1;
        let m = &mods[j];
        let matches_inst = match &m.instance {
            Some(s) => str_eq(s.as_str(), inst),
            None => false,
        };
        proof {
            assert(mods@.take(j + 1).last() == mods@[j as int]);
            assert(mods@.take(j + 1).drop_last() =~= mods@.take(j as int));
        }
        if matches_inst {
            return Some(j);
        }
    }
    proof {
        assert(mods@.take(0) =~= Seq::<ModuleNode>::empty());
    }
    None
}

/// Resolve the plain MODULE and MEMRANGE records of a hierarchical
/// description into the topology map, exactly as [`spec_build`] states it.
/// A MODULE element missing its instance, path or identity attribute stops
/// the resolution with [`Error::Configuration`].
pub fn build_topology(modules: &Vec<ModuleNode>, memranges: &Vec<MemRangeNode>) -> (r: Result<
    Topology,
    Error,
>)
    ensures
        match r {
            Ok(t) => {
                &&& spec_modules_ok(modules@)
                &&& spec_build(modules@, memranges@, Seq::empty()) == Result::<
                    Seq<IpModel>,
                    Error,
                >::Ok(t@)
                &&& Topology::unique_names(t@)
            },
            Err(e) => {
                ||| (!spec_modules_ok(modules@) && e == Error::Configuration)
                ||| (spec_modules_ok(modules@) && spec_build(modules@, memranges@, Seq::empty())
                    == Result::<Seq<IpModel>, Error>::Err(e))
            },
        },
{
    let mut v: usize = 0;
    while v < modules.len()
        invariant
            v <= modules@.len(),
            forall|i: int|
                0 <= i < v ==> (#[trigger] modules@[i]).instance is Some
                    && modules@[i].fullname is Some && modules@[i].vlnv is Some,
        decreases modules@.len() - v,
    {
        let m = &modules[v];
        if m.instance.is_none() || m.fullname.is_none() || m.vlnv.is_none() {
            return Err(Error::Configuration);
        }
        v = v + 1;
    }
    let mut ips: Vec<Ip> = Vec::new();
    let ghost mods = modules@;
    let ghost mrs = memranges@;
    proof {
        assert(mrs.skip(0) =~= mrs);
        assert(ips@.map_values(|ip: Ip| ip@) =~= Seq::<IpModel>::empty());
    }
    let mut k: usize = 0;
    while k < memranges.len()
        invariant
            k <= mrs.len(),
            mods == modules@,
            mrs == memranges@,
            spec_modules_ok(mods),
            spec_build(mods, mrs, Seq::empty()) == spec_build(
                mods,
                mrs.skip(k as int),
                ips@.map_values(|ip: Ip| ip@),
            ),
            Topology::unique_names(ips@.map_values(|ip: Ip| ip@)),
        decreases mrs.len() - k,
    {
        let ghost acc = ips@.map_values(|ip: Ip| ip@);
        let ghost rest = mrs.skip(k as int);
        proof {
            assert(rest.first() == mrs[k as int]);
            assert(rest.drop_first() =~= mrs.skip(k + 1));
        }
        let mr = &memranges[k];
        let inst = match &mr.instance {
            Some(s) => s,
            None => {
                return Err(Error::Configuration);
            },
        };
        let found = find_module_index(modules, inst.as_str());
        if let Some(j) = found {
            let m = &modules[j];
            let base_s = match &mr.base_value {
                Some(s) => s,
                None => {
                    return Err(Error::Configuration);
                },
            };
            let high_s = match &mr.high_value {
                Some(s) => s,
                None => {
                    return Err(Error::Configuration);
                },
            };
            let (base, size) = match memrange_span(base_s.as_str(), high_s.as_str()) {
                Ok(p) => p,
                Err(e) => {
                    return Err(e);
                },
            };
            let fullname = match &m.fullname {
                Some(s) => s.clone(),
                None => {
                    return Err(Error::Configuration);
                },
            };
            let vlnv = match &m.vlnv {
                Some(s) => s.clone(),
                None => {
                    return Err(Error::Configuration);
                },
            };
            let bdtype = match &m.bdtype {
                Some(s) => s.clone(),
                None => String::new(),
            };
            let ip = Ip {
                fullname,
                instname: inst.clone(),
                vlnv,
                bdtype,
                phys_addr: base,
                addr_range: size,
            };
            proof {
                assert(ip@ == spec_resolved_ip(mods[j as int], mrs[k as int]));
            }
            upsert(&mut ips, ip);
        }
        k = k + 1;
    }
    proof {
        assert(mrs.skip(mrs.len() as int) =~= Seq::<MemRangeNode>::empty());
    }
    Ok(Topology { ips })
}

fn upsert(ips: &mut Vec<Ip>, ip: Ip)
    requires
        Topology::unique_names(old(ips)@.map_values(|x: Ip| x@)),
    ensures
        final(ips)@.map_values(|x: Ip| x@) == spec_upsert(
            old(ips)@.map_values(|x: Ip| x@),
            ip@,
        ),
        Topology::unique_names(final(ips)@.map_values(|x: Ip| x@)),
{
    let ghost acc = ips@.map_values(|x: Ip| x@);
    let ghost model = ip@;
    let ghost name = ip@.fullname;
    proof {
        assert(old(ips)@.map_values(|x: Ip| x@) =~= acc);
    }
    let mut i: usize = 0;
    while i < ips.len()
        invariant
            i <= ips@.len(),
            ips@ == old(ips)@,
            acc == ips@.map_values(|x: Ip| x@),
            ip@ == model,
            name == model.fullname,
            Topology::unique_names(acc),
            forall|j: int| 0 <= j < i ==> (#[trigger] acc[j]).fullname != name,
        decreases ips@.len() - i,
    {
        proof {
            assert(acc[i as int] == ips@[i as int]@);
        }
        let same = str_eq(ips[i].fullname.as_str(), ip.fullname.as_str());
        if same {
            proof {
                assert(acc[i as int].fullname == name);
                assert(spec_has_name(acc, name));
                assert(Topology::unique_names(acc));
                let w = choose|x: int|
                    0 <= x < acc.len() && (#[trigger] acc[x]).fullname == name;
                assert(0 <= w < acc.len() && acc[w].fullname == name);
                if w < i as int {
                    assert(acc[w].fullname != acc[i as int].fullname);
                }
                if w > i as int {
                    assert(acc[i as int].fullname != acc[w].fullname);
                }
                assert(w == i as int);
            }
            ips[i] = ip;
            proof {
                let newacc = acc.update(i as int, ip@);
                assert(ips@.map_values(|x: Ip| x@) =~= newacc);
                assert(spec_upsert(acc, ip@) == newacc);
                assert forall|a: int, b: int| 0 <= a < b < newacc.len() implies (
                #[trigger] newacc[a]).fullname != (#[trigger] newacc[b]).fullname by {
                    assert(acc[a].fullname != acc[b].fullname);
                }
            }
            return ;
        }
        i = i + 1;
    }
    proof {
        assert(!spec_has_name(acc, name));
    }
    ips.push(ip);
    proof {
        let newacc = acc.push(ip@);
        assert(ips@.map_values(|x: Ip| x@) =~= newacc);
        assert(spec_upsert(acc, ip@) == newacc);
        assert forall|a: int, b: int| 0 <= a < b < newacc.len() implies (
        #[trigger] newacc[a]).fullname != (#[trigger] newacc[b]).fullname by {
            if b < acc.len() {
                assert(acc[a].fullname != acc[b].fullname);
            } else {
                assert(newacc[b] == ip@);
                assert(acc[a].fullname != name);
            }
        }
    }
}

} // verus!

