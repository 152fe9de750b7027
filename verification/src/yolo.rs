//! The object-detection accelerator family: five high-level-synthesis
//! blocks sharing one control layout, each with its own named parameter
//! registers looked up by field name.

use vstd::prelude::*;

use crate::errors::Error;
use crate::hwinfo::HwIdentity;
use crate::regio::{RegWrite, RegisterWindow};
use crate::text::str_eq;

verus! {

/// Control register of every family member.
pub const YOLO_REG_CTRL: usize = 0x00;

/// How many 32-bit words of register window a family member needs.
pub const YOLO_WINDOW_WORDS: usize = 19;

/// One named parameter register.
#[derive(Debug)]
pub struct NamedReg {
    /// The field name the register is looked up by.
    pub name: String,
    /// The register's byte offset.
    pub offset: usize,
}

/// The parameter table of the accumulation block.
pub open spec fn spec_acc_table() -> Seq<(Seq<char>, int)> {
    seq![
        ("INPUT_H"@, 0x10int),
        ("INPUT_W"@, 0x18int),
        ("FOLD_INPUT_CH"@, 0x20int),
        ("LEAKY"@, 0x28int),
        ("BIAS_EN"@, 0x30int),
    ]
}

/// The parameter table of the convolution block.
pub open spec fn spec_conv_table() -> Seq<(Seq<char>, int)> {
    seq![
        ("OUTPUT_CH"@, 0x10int),
        ("INPUT_CH"@, 0x18int),
        ("FOLD_OUTPUT_CH"@, 0x20int),
        ("FOLD_INPUT_CH"@, 0x28int),
        ("INPUT_H"@, 0x30int),
        ("INPUT_W"@, 0x38int),
        ("REAL_INPUT_H"@, 0x40int),
        ("FOLD_WIN_AREA"@, 0x48int),
    ]
}

/// The parameter table of the pooling block.
pub open spec fn spec_pool_table() -> Seq<(Seq<char>, int)> {
    seq![
        ("OUTPUT_H"@, 0x10int),
        ("OUTPUT_W"@, 0x18int),
        ("INPUT_H"@, 0x20int),
        ("INPUT_W"@, 0x28int),
        ("INPUT_FOLD_CH"@, 0x30int),
        ("STRIDE"@, 0x38int),
    ]
}

/// The parameter table of the detection head.
pub open spec fn spec_head_table() -> Seq<(Seq<char>, int)> {
    seq![("ACTIVATE_EN"@, 0x10int), ("INPUT_H"@, 0x18int), ("INPUT_W"@, 0x20int)]
}

/// The parameter table a block name selects; the upsampling block has
/// none, and any other name is unsupported.
pub open spec fn spec_table_of(name: Seq<char>) -> Option<Seq<(Seq<char>, int)>> {
    if name == "yolo_acc_top"@ {
        Some(spec_acc_table())
    } else if name == "yolo_conv_top"@ {
        Some(spec_conv_table())
    } else if name == "yolo_max_pool_top"@ {
        Some(spec_pool_table())
    } else if name == "yolo_upsamp_top"@ {
        Some(Seq::empty())
    } else if name == "yolo_yolo_top"@ {
        Some(spec_head_table())
    } else {
        None
    }
}

/// Whether a register table is well formed for a window of the family's
/// size: every offset word-aligned and inside the window.
pub open spec fn spec_table_wf(t: Seq<NamedReg>) -> bool {
    forall|i: int|
        0 <= i < t.len() ==> (#[trigger] t[i]).offset % 4 == 0 && t[i].offset / 4
            < YOLO_WINDOW_WORDS
}

fn push_reg(v: &mut Vec<NamedReg>, name: &str, offset: usize)
    requires
        offset % 4 == 0,
        offset / 4 < YOLO_WINDOW_WORDS,
    ensures
        final(v)@.len() == old(v)@.len() + 1,
        final(v)@.last().name@ == name@,
        final(v)@.last().offset == offset,
        forall|i: int| 0 <= i < old(v)@.len() ==> final(v)@[i] == old(v)@[i],
    {
    let mut s = String::new();
    s.append(name);
    v.push(NamedReg { name: s, offset });
}

/// Build the parameter table of a block name, as [`spec_table_of`] lists
/// it; a name outside the family is unsupported.
pub fn get_addrs(name: &str) -> (r: Result<Vec<NamedReg>, Error>)
    ensures
        match r {
            Ok(v) => {
                &&& spec_table_of(name@) is Some
                &&& v@.len() == spec_table_of(name@)->0.len()
                &&& forall|i: int|
                    0 <= i < v@.len() ==> (#[trigger] v@[i]).name@ == spec_table_of(
                        name@,
                    )->0[i].0 && v@[i].offset == spec_table_of(name@)->0[i].1
                &&& spec_table_wf(v@)
            },
            Err(e) => {
                &&& e == Error::UnsupportedIp
                &&& spec_table_of(name@) is None
            },
        },
{
    let mut v: Vec<NamedReg> = Vec::new();
    if str_eq(name, "yolo_acc_top") {
        push_reg(&mut v, "INPUT_H", 0x10);
        push_reg(&mut v, "INPUT_W", 0x18);
        push_reg(&mut v, "FOLD_INPUT_CH", 0x20);
        push_reg(&mut v, "LEAKY", 0x28);
        push_reg(&mut v, "BIAS_EN", 0x30);
        Ok(v)
    } else if str_eq(name, "yolo_conv_top") {
        push_reg(&mut v, "OUTPUT_CH", 0x10);
        push_reg(&mut v, "INPUT_CH", 0x18);
        push_reg(&mut v, "FOLD_OUTPUT_CH", 0x20);
        push_reg(&mut v, "FOLD_INPUT_CH", 0x28);
        push_reg(&mut v, "INPUT_H", 0x30);
        push_reg(&mut v, "INPUT_W", 0x38);
        push_reg(&mut v, "REAL_INPUT_H", 0x40);
        push_reg(&mut v, "FOLD_WIN_AREA", 0x48);
        Ok(v)
    } else if str_eq(name, "yolo_max_pool_top") {
        push_reg(&mut v, "OUTPUT_H", 0x10);
        push_reg(&mut v, "OUTPUT_W", 0x18);
        push_reg(&mut v, "INPUT_H", 0x20);
        push_reg(&mut v, "INPUT_W", 0x28);
        push_reg(&mut v, "INPUT_FOLD_CH", 0x30);
        push_reg(&mut v, "STRIDE", 0x38);
        Ok(v)
    } else if str_eq(name, "yolo_upsamp_top") {
        Ok(v)
    } else if str_eq(name, "yolo_yolo_top") {
        push_reg(&mut v, "ACTIVATE_EN", 0x10);
        push_reg(&mut v, "INPUT_H", 0x18);
        push_reg(&mut v, "INPUT_W", 0x20);
        Ok(v)
    } else {
        Err(Error::UnsupportedIp)
    }
}

/// One block of the object-detection family.
#[derive(Debug)]
pub struct Yolo {
    /// The register window the block programs; the runner deposits device
    /// registers here and drains the programmed writes.
    pub window: RegisterWindow,
    /// The block's named parameter registers.
    pub addrs: Vec<NamedReg>,
}

impl Yolo {
    /// The driver's invariant: a large enough window and a coherent
    /// table.
    pub open spec fn wf(&self) -> bool {
        &&& self.window.image().len() >= YOLO_WINDOW_WORDS
        &&& spec_table_wf(self.addrs@)
    }

    /// Bind the driver to one block of the family: the identity must name
    /// a high-level-synthesis block whose name the family knows.
    pub fn new(id: &HwIdentity, window: RegisterWindow) -> (r: Result<Self, Error>)
        ensures
            match r {
                Ok(d) => {
                    &&& id.vendor@ == "xilinx.com"@ && id.library@ == "hls"@
                    &&& spec_table_of(id.name@) is Some
                    &&& window.image().len() >= YOLO_WINDOW_WORDS
                    &&& d.wf()
                    &&& d.window == window
                    &&& d.addrs@.len() == spec_table_of(id.name@)->0.len()
                    &&& forall|i: int|
                        0 <= i < d.addrs@.len() ==> (#[trigger] d.addrs@[i]).name@
                            == spec_table_of(id.name@)->0[i].0 && d.addrs@[i].offset
                            == spec_table_of(id.name@)->0[i].1
                },
                Err(Error::UnsupportedIp) => !(id.vendor@ == "xilinx.com"@ && id.library@
                    == "hls"@) || spec_table_of(id.name@) is None,
                Err(Error::Resource) => {
                    &&& id.vendor@ == "xilinx.com"@ && id.library@ == "hls"@
                    &&& spec_table_of(id.name@) is Some
                    &&& window.image().len() < YOLO_WINDOW_WORDS
                },
                Err(_) => false,
            },
    {
        if !(str_eq(id.vendor.as_str(), "xilinx.com") && str_eq(id.library.as_str(), "hls")) {
            return Err(Error::UnsupportedIp);
        }
        let addrs = get_addrs(id.name.as_str())?;
        if window.word_len() < YOLO_WINDOW_WORDS {
            return Err(Error::Resource);
        }
        Ok(Yolo { window, addrs })
    }

    /// Whether the block reports the done bit.
    pub fn is_done(&self) -> (r: bool)
        requires
            self.wf(),
        ensures
            r == (self.window.image()[YOLO_REG_CTRL as int / 4] & 2 == 2),
    {
        self.window.read32(YOLO_REG_CTRL) & 2 == 2
    }

    /// Whether the block reports the idle bit.
    pub fn is_idle(&self) -> (r: bool)
        requires
            self.wf(),
        ensures
            r == (self.window.image()[YOLO_REG_CTRL as int / 4] & 4 == 4),
    {
        self.window.read32(YOLO_REG_CTRL) & 4 == 4
    }

    /// Whether the block is ready for a new start: the start bit is
    /// clear.
    pub fn is_ready(&self) -> (r: bool)
        requires
            self.wf(),
        ensures
            r == (self.window.image()[YOLO_REG_CTRL as int / 4] & 1 != 1),
    {
        self.window.read32(YOLO_REG_CTRL) & 1 != 1
    }

    /// Set the start bit, keeping the auto-restart bit already present in
    /// the control image.
    pub fn start(&mut self)
        requires
            old(self).wf(),
        ensures
            final(self).wf(),
            final(self).addrs == old(self).addrs,
            final(self).window.writes() == old(self).window.writes().push(
                RegWrite {
                    offset: YOLO_REG_CTRL,
                    value: (old(self).window.image()[YOLO_REG_CTRL as int / 4] & 0x80) | 1,
                },
            ),
            final(self).window.image() == old(self).window.image().update(
                YOLO_REG_CTRL as int / 4,
                (old(self).window.image()[YOLO_REG_CTRL as int / 4] & 0x80) | 1,
            ),
    {
        let auto_restart = self.window.read32(YOLO_REG_CTRL) & 0x80;
        self.window.write32(YOLO_REG_CTRL, auto_restart | 1);
    }

    /// Program the persistent auto-restart bit.
    pub fn set_auto_restart_enable(&mut self, en: bool)
        requires
            old(self).wf(),
        ensures
            final(self).wf(),
            final(self).addrs == old(self).addrs,
            final(self).window.writes() == old(self).window.writes().push(
                RegWrite { offset: YOLO_REG_CTRL, value: if en { 0x80 } else { 0 } },
            ),
            final(self).window.image() == old(self).window.image().update(
                YOLO_REG_CTRL as int / 4,
                if en {
                    0x80u32
                } else {
                    0u32
                },
            ),
    {
        let reg: u32 = if en {
            0x80
        } else {
            0
        };
        self.window.write32(YOLO_REG_CTRL, reg);
    }

    /// The first table entry carrying a field name, if any.
    pub open spec fn spec_find(t: Seq<NamedReg>, name: Seq<char>) -> Option<NamedReg>
        decreases t.len(),
    {
        if t.len() == 0 {
            None
        } else if t.first().name@ == name {
            Some(t.first())
        } else {
            Self::spec_find(t.drop_first(), name)
        }
    }

    fn find(&self, name: &str) -> (r: Option<usize>)
        requires
            self.wf(),
        ensures
            match r {
                Some(i) => {
                    &&& i < self.addrs@.len()
                    &&& Self::spec_find(self.addrs@, name@) == Some(self.addrs@[i as int])
                },
                None => Self::spec_find(self.addrs@, name@) is None,
            },
    {
        let mut i: usize = 0;
        proof {
            assert(self.addrs@.skip(0) =~= self.addrs@);
        }
        while i < self.addrs.len()
            invariant
                self.wf(),
                i <= self.addrs@.len(),
                Self::spec_find(self.addrs@, name@) == Self::spec_find(
                    self.addrs@.skip(i as int),
                    name@,
                ),
            decreases self.addrs@.len() - i,
        {
            let ghost rest = self.addrs@.skip(i as int);
            proof {
                assert(rest.first() == self.addrs@[i as int]);
                assert(rest.drop_first() =~= self.addrs@.skip(i + 1));
            }
            if str_eq(self.addrs[i].name.as_str(), name) {
                return Some(i);
            }
            i = i + 1;
        }
        proof {
            assert(self.addrs@.skip(self.addrs@.len() as int) =~= Seq::<NamedReg>::empty());
        }
        None
    }

    /// Program the parameter register carrying a field name; an unknown
    /// name is refused.
    pub fn set(&mut self, name: &str, data: u32) -> (r: Result<(), Error>)
        requires
            old(self).wf(),
        ensures
            final(self).wf(),
            final(self).addrs == old(self).addrs,
            match r {
                Ok(()) => {
                    &&& Self::spec_find(old(self).addrs@, name@) is Some
                    &&& final(self).window.writes() == old(self).window.writes().push(
                        RegWrite {
                            offset: Self::spec_find(old(self).addrs@, name@)->0.offset,
                            value: data,
                        },
                    )
                },
                Err(e) => {
                    &&& e == Error::NotFound
                    &&& Self::spec_find(old(self).addrs@, name@) is None
                    &&& *final(self) == *old(self)
                },
            },
    {
        let i = match self.find(name) {
            Some(i) => i,
            None => {
                return Err(Error::NotFound);
            },
        };
        let offset = self.addrs[i].offset;
        self.window.write32(offset, data);
        Ok(())
    }

    /// The parameter register carrying a field name, as the image holds
    /// it; an unknown name is refused.
    pub fn get(&self, name: &str) -> (r: Result<u32, Error>)
        requires
            self.wf(),
        ensures
            match r {
                Ok(v) => {
                    &&& Self::spec_find(self.addrs@, name@) is Some
                    &&& v == self.window.image()[Self::spec_find(self.addrs@, name@)->0.offset
                        as int / 4]
                },
                Err(e) => {
                    &&& e == Error::NotFound
                    &&& Self::spec_find(self.addrs@, name@) is None
                },
            },
    {
        let i = match self.find(name) {
            Some(i) => i,
            None => {
                return Err(Error::NotFound);
            },
        };
        Ok(self.window.read32(self.addrs[i].offset))
    }
}

} // verus!
