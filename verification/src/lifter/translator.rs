//! What the lifter reads of a processor's translator.

use crate::cio::info::bits_fit;
use crate::ir::space::SpaceManager;
use crate::ir::term::share;
use crate::ir::var::Var;
use crate::lifter::convention::{Convention, VarnodeData};
use crate::names::{intern, name_text, same_name};
use crate::search::{first_where, lemma_first_where_is};
use std::sync::Arc;
use ustr::Ustr;
use vstd::prelude::*;

verus! {

/// A format of floating-point numbers: where its parts stand, and what they
/// mean. Its size is in bytes.
#[derive(Clone, Copy, Debug, PartialEq, Eq, Structural)]
pub struct FloatKind {
    pub size: usize,
    pub sign_pos: u32,
    pub frac_pos: u32,
    pub frac_size: u32,
    pub exp_pos: u32,
    pub exp_max: i32,
    pub exp_size: u32,
    pub bias: i32,
    pub j_bit_implied: bool,
}

/// What the lifter reads of a translator. A float format stands beside its
/// size in bits.
#[derive(Debug)]
pub struct Translator {
    pub big_endian: bool,
    pub program_counter: VarnodeData,
    pub manager: SpaceManager,
    pub registers: Vec<(Ustr, VarnodeData)>,
    pub float_formats: Vec<(usize, FloatKind)>,
    pub compiler_conventions: Vec<(String, Arc<Convention>)>,
}

/// Whether two lists of conventions have the same names, for the same
/// conventions.
pub open spec fn same_conventions(
    conventions: Seq<(String, Arc<Convention>)>,
    others: Seq<(String, Arc<Convention>)>,
) -> bool {
    &&& conventions.len() == others.len()
    &&& forall|i: int|
        0 <= i < conventions.len() ==> (#[trigger] conventions[i]).0@ == others[i].0@
            && conventions[i].1 == others[i].1
}

impl Translator {
    /// Whether two translators are read the same.
    pub open spec fn same_as(self, other: Translator) -> bool {
        &&& self.big_endian == other.big_endian
        &&& self.program_counter == other.program_counter
        &&& self.manager.same_as(other.manager)
        &&& self.registers@ == other.registers@
        &&& self.float_formats@ == other.float_formats@
        &&& same_conventions(self.compiler_conventions@, other.compiler_conventions@)
    }

    /// Whether no two registers, no two float formats and no two conventions
    /// go by the same name or size.
    pub open spec fn has_distinct_names(self) -> bool {
        &&& forall|i: int, j: int|
            0 <= i < j < self.registers@.len() ==> name_text((#[trigger] self.registers@[i]).0)
                != name_text((#[trigger] self.registers@[j]).0)
        &&& forall|i: int, j: int|
            0 <= i < j < self.float_formats@.len() ==> (#[trigger] self.float_formats@[i]).0 as u32
                != (#[trigger] self.float_formats@[j]).0 as u32
        &&& forall|i: int, j: int|
            0 <= i < j < self.compiler_conventions@.len() ==> (
            #[trigger] self.compiler_conventions@[i]).0@ != (
            #[trigger] self.compiler_conventions@[j]).0@
    }
}

impl Clone for Translator {
    fn clone(&self) -> (copy: Self)
        ensures
            copy.same_as(*self),
    {
        let mut registers: Vec<(Ustr, VarnodeData)> = Vec::new();
        let mut i: usize = 0;
        while i < self.registers.len()
            invariant
                i <= self.registers@.len(),
                registers@ == self.registers@.take(i as int),
            decreases self.registers@.len() - i,
        {
            registers.push((self.registers[i].0, self.registers[i].1));
            i = i + 1;
        }
        assert(registers@ =~= self.registers@);
        let mut float_formats: Vec<(usize, FloatKind)> = Vec::new();
        let mut i: usize = 0;
        while i < self.float_formats.len()
            invariant
                i <= self.float_formats@.len(),
                float_formats@ == self.float_formats@.take(i as int),
            decreases self.float_formats@.len() - i,
        {
            float_formats.push((self.float_formats[i].0, self.float_formats[i].1));
            i = i + 1;
        }
        assert(float_formats@ =~= self.float_formats@);
        let mut compiler_conventions: Vec<(String, Arc<Convention>)> = Vec::new();
        let mut i: usize = 0;
        while i < self.compiler_conventions.len()
            invariant
                i <= self.compiler_conventions@.len(),
                same_conventions(
                    compiler_conventions@,
                    self.compiler_conventions@.take(i as int),
                ),
            decreases self.compiler_conventions@.len() - i,
        {
            let convention = &self.compiler_conventions[i];
            compiler_conventions.push((convention.0.clone(), share(&convention.1)));
            i = i + 1;
        }
        assert(self.compiler_conventions@.take(i as int) =~= self.compiler_conventions@);
        Translator {
            big_endian: self.big_endian,
            program_counter: self.program_counter,
            manager: self.manager.clone(),
            registers,
            float_formats,
            compiler_conventions,
        }
    }
}

/// Whether a register has a name.
pub open spec fn register_named(text: Seq<char>) -> spec_fn((Ustr, VarnodeData)) -> bool {
    |register: (Ustr, VarnodeData)| name_text(register.0) == text
}

/// Whether a convention has a name.
pub open spec fn convention_named(text: Seq<char>) -> spec_fn((String, Arc<Convention>)) -> bool {
    |convention: (String, Arc<Convention>)| convention.0@ == text
}

impl Translator {
    /// The register of a name.
    pub open spec fn register(self, text: Seq<char>) -> Option<VarnodeData> {
        let at = first_where(self.registers@, register_named(text));
        if at < self.registers@.len() {
            Some(self.registers@[at].1)
        } else {
            None
        }
    }

    /// The calling convention of a name.
    pub open spec fn convention(self, text: Seq<char>) -> Option<Arc<Convention>> {
        let at = first_where(self.compiler_conventions@, convention_named(text));
        if at < self.compiler_conventions@.len() {
            Some(self.compiler_conventions@[at].1)
        } else {
            None
        }
    }

    /// The register of a name.
    pub fn register_by_name(&self, name: &str) -> (register: Option<VarnodeData>)
        ensures
            register == self.register(name@),
    {
        let wanted = intern(name);
        let mut i: usize = 0;
        while i < self.registers.len()
            invariant
                i <= self.registers@.len(),
                name_text(wanted) == name@,
                forall|j: int|
                    0 <= j < i ==> !register_named(name_text(wanted))(#[trigger] self.registers@[j]),
            decreases self.registers@.len() - i,
        {
            if same_name(self.registers[i].0, wanted) {
                proof {
                    lemma_first_where_is(
                        self.registers@,
                        register_named(name_text(wanted)),
                        i as int,
                    );
                }
                return Some(self.registers[i].1);
            }
            i = i + 1;
        }
        proof {
            lemma_first_where_is(self.registers@, register_named(name_text(wanted)), i as int);
        }
        None
    }

    /// The calling convention of a name.
    pub fn convention_by_name(&self, name: &str) -> (convention: Option<Arc<Convention>>)
        ensures
            convention == self.convention(name@),
    {
        let wanted = name.to_owned();
        let mut i: usize = 0;
        while i < self.compiler_conventions.len()
            invariant
                i <= self.compiler_conventions@.len(),
                wanted@ == name@,
                forall|j: int|
                    0 <= j < i ==> !convention_named(
                        name@,
                    )(#[trigger] self.compiler_conventions@[j]),
            decreases self.compiler_conventions@.len() - i,
        {
            if self.compiler_conventions[i].0 == wanted {
                proof {
                    lemma_first_where_is(
                        self.compiler_conventions@,
                        convention_named(name@),
                        i as int,
                    );
                }
                return Some(share(&self.compiler_conventions[i].1));
            }
            i = i + 1;
        }
        proof {
            lemma_first_where_is(self.compiler_conventions@, convention_named(name@), i as int);
        }
        None
    }

    /// The variable of the register of a name.
    pub open spec fn named_var(self, text: Seq<char>) -> Option<Var> {
        match self.register(text) {
            Some(register) => Some(register.var_in(register.space)),
            None => None,
        }
    }

    /// Whether the register of a name, if there is one, has a size that fits in
    /// bits.
    pub open spec fn named_var_fits(self, text: Seq<char>) -> bool {
        self.register(text) matches Some(register) ==> bits_fit(register.size)
    }
}

/// What else can be asked of a translator.
pub trait TranslatorExt {
    /// Whether a variable can be asked for.
    spec fn var_fits(&self, text: Seq<char>) -> bool;

    /// The variable of the register of a name.
    spec fn var_named(&self, text: Seq<char>) -> Option<Var>;

    /// The variable of the register of a name.
    fn register_var(&self, name: &str) -> (var: Option<Var>)
        requires
            self.var_fits(name@),
        ensures
            var == self.var_named(name@),
    ;
}

impl TranslatorExt for Translator {
    open spec fn var_fits(&self, text: Seq<char>) -> bool {
        self.named_var_fits(text)
    }

    open spec fn var_named(&self, text: Seq<char>) -> Option<Var> {
        self.named_var(text)
    }

    fn register_var(&self, name: &str) -> (var: Option<Var>) {
        match self.register_by_name(name) {
            Some(register) => Some(register.in_space(register.space)),
            None => None,
        }
    }
}

} // verus!
