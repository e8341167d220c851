//! How a type database is loaded.

use vstd::prelude::*;

verus! {

/// What decides how a type database is loaded: whether the file is a C header,
/// and the arguments that the C importer is given for 32-bit and for 64-bit
/// targets.
#[derive(Debug)]
pub struct TypeDBConfig<'a> {
    header: bool,
    use_mxx: bool,
    m32_arguments: Vec<&'a str>,
    m64_arguments: Vec<&'a str>,
    /// Enables permissive parsing of struct fields: when encountering an error,
    /// a field will be skipped instead of discarding the whole struct
    relaxed_struct_parsing: bool,
}

/// A configuration as a mathematical value.
#[verifier::ext_equal]
pub struct ConfigModel {
    pub header: bool,
    pub use_mxx: bool,
    pub args32: Seq<Seq<char>>,
    pub args64: Seq<Seq<char>>,
    pub relaxed_struct_parsing: bool,
}

/// The texts of a list of arguments.
pub open spec fn texts(args: Seq<&str>) -> Seq<Seq<char>> {
    args.map_values(|arg: &str| arg@)
}

impl<'a> View for TypeDBConfig<'a> {
    type V = ConfigModel;

    closed spec fn view(&self) -> ConfigModel {
        ConfigModel {
            header: self.header,
            use_mxx: self.use_mxx,
            args32: texts(self.m32_arguments@),
            args64: texts(self.m64_arguments@),
            relaxed_struct_parsing: self.relaxed_struct_parsing,
        }
    }
}

impl<'a> Default for TypeDBConfig<'a> {
    /// No header, no arguments, strict parsing, and a target width that the
    /// importer is told with an argument of its own.
    fn default() -> (config: Self)
        ensures
            config@ == (ConfigModel {
                header: false,
                use_mxx: true,
                args32: Seq::empty(),
                args64: Seq::empty(),
                relaxed_struct_parsing: false,
            }),
    {
        TypeDBConfig {
            header: false,
            use_mxx: true,
            m32_arguments: Vec::new(),
            m64_arguments: Vec::new(),
            relaxed_struct_parsing: false,
        }
    }
}

impl<'a> Clone for TypeDBConfig<'a> {
    fn clone(&self) -> (config: Self)
        ensures
            config@ == self@,
    {
        TypeDBConfig {
            header: self.header,
            use_mxx: self.use_mxx,
            m32_arguments: copy_args(&self.m32_arguments),
            m64_arguments: copy_args(&self.m64_arguments),
            relaxed_struct_parsing: self.relaxed_struct_parsing,
        }
    }
}

fn copy_args<'a>(args: &Vec<&'a str>) -> (copy: Vec<&'a str>)
    ensures
        copy@ == args@,
{
    let mut copy: Vec<&'a str> = Vec::new();
    let mut i: usize = 0;
    while i < args.len()
        invariant
            i <= args@.len(),
            copy@ == args@.take(i as int),
        decreases args@.len() - i,
    {
        copy.push(args[i]);
        i = i + 1;
    }
    assert(copy@ =~= args@);
    copy
}

impl<'a> TypeDBConfig<'a> {
    pub fn new(header: bool) -> (config: Self)
        ensures
            config@ == (ConfigModel {
                header,
                use_mxx: false,
                args32: Seq::empty(),
                args64: Seq::empty(),
                relaxed_struct_parsing: false,
            }),
    {
        TypeDBConfig {
            header,
            use_mxx: false,
            m32_arguments: Vec::new(),
            m64_arguments: Vec::new(),
            relaxed_struct_parsing: false,
        }
    }

    pub fn with_mxx(self, mxx: bool) -> (config: Self)
        ensures
            config@ == (ConfigModel { use_mxx: mxx, ..self@ }),
    {
        let mut config = self;
        config.set_mxx(mxx);
        config
    }

    pub fn set_mxx(&mut self, mxx: bool)
        ensures
            final(self)@ == (ConfigModel { use_mxx: mxx, ..old(self)@ }),
    {
        self.use_mxx = mxx;
    }

    pub fn with_header(self, header: bool) -> (config: Self)
        ensures
            config@ == (ConfigModel { header, ..self@ }),
    {
        let mut config = self;
        config.set_header(header);
        config
    }

    pub fn set_header(&mut self, header: bool)
        ensures
            final(self)@ == (ConfigModel { header, ..old(self)@ }),
    {
        self.header = header;
    }

    pub fn with_arg(self, arg: &'a str) -> (config: Self)
        ensures
            config@ == (ConfigModel {
                args32: self@.args32.push(arg@),
                args64: self@.args64.push(arg@),
                ..self@
            }),
    {
        let mut config = self;
        config.push_arg(arg);
        config
    }

    pub fn push_arg(&mut self, arg: &'a str)
        ensures
            final(self)@ == (ConfigModel {
                args32: old(self)@.args32.push(arg@),
                args64: old(self)@.args64.push(arg@),
                ..old(self)@
            }),
    {
        self.push_arg32(arg);
        self.push_arg64(arg);
    }

    pub fn with_arg32(self, arg: &'a str) -> (config: Self)
        ensures
            config@ == (ConfigModel { args32: self@.args32.push(arg@), ..self@ }),
    {
        let mut config = self;
        config.push_arg32(arg);
        config
    }

    pub fn push_arg32(&mut self, arg: &'a str)
        ensures
            final(self)@ == (ConfigModel { args32: old(self)@.args32.push(arg@), ..old(self)@ }),
    {
        self.m32_arguments.push(arg);
    }

    pub fn with_arg64(self, arg: &'a str) -> (config: Self)
        ensures
            config@ == (ConfigModel { args64: self@.args64.push(arg@), ..self@ }),
    {
        let mut config = self;
        config.push_arg64(arg);
        config
    }

    pub fn push_arg64(&mut self, arg: &'a str)
        ensures
            final(self)@ == (ConfigModel { args64: old(self)@.args64.push(arg@), ..old(self)@ }),
    {
        self.m64_arguments.push(arg);
    }

    pub fn with_args(self, args: Vec<&'a str>) -> (config: Self)
        ensures
            config@ == (ConfigModel {
                args32: self@.args32 + texts(args@),
                args64: self@.args64 + texts(args@),
                ..self@
            }),
    {
        let mut config = self;
        config.extend_args(args);
        config
    }

    pub fn extend_args(&mut self, args: Vec<&'a str>)
        ensures
            final(self)@ == (ConfigModel {
                args32: old(self)@.args32 + texts(args@),
                args64: old(self)@.args64 + texts(args@),
                ..old(self)@
            }),
    {
        let mut i: usize = 0;
        while i < args.len()
            invariant
                i <= args@.len(),
                self@ == (ConfigModel {
                    args32: old(self)@.args32 + texts(args@.take(i as int)),
                    args64: old(self)@.args64 + texts(args@.take(i as int)),
                    ..old(self)@
                }),
            decreases args@.len() - i,
        {
            self.push_arg(args[i]);
            assert(args@.take(i + 1) =~= args@.take(i as int).push(args@[i as int]));
            i = i + 1;
        }
        assert(args@.take(i as int) =~= args@);
    }

    pub fn with_args32(self, args: Vec<&'a str>) -> (config: Self)
        ensures
            config@ == (ConfigModel { args32: self@.args32 + texts(args@), ..self@ }),
    {
        let mut config = self;
        config.extend_args32(args);
        config
    }

    pub fn extend_args32(&mut self, mut args: Vec<&'a str>)
        ensures
            final(self)@ == (ConfigModel {
                args32: old(self)@.args32 + texts(args@),
                ..old(self)@
            }),
    {
        self.m32_arguments.append(&mut args);
    }

    pub fn with_args64(self, args: Vec<&'a str>) -> (config: Self)
        ensures
            config@ == (ConfigModel { args64: self@.args64 + texts(args@), ..self@ }),
    {
        let mut config = self;
        config.extend_args64(args);
        config
    }

    pub fn extend_args64(&mut self, mut args: Vec<&'a str>)
        ensures
            final(self)@ == (ConfigModel {
                args64: old(self)@.args64 + texts(args@),
                ..old(self)@
            }),
    {
        self.m64_arguments.append(&mut args);
    }

    pub fn clear_args(&mut self)
        ensures
            final(self)@ == (ConfigModel {
                args32: Seq::empty(),
                args64: Seq::empty(),
                ..old(self)@
            }),
    {
        self.clear_args32();
        self.clear_args64();
    }

    pub fn clear_args32(&mut self)
        ensures
            final(self)@ == (ConfigModel { args32: Seq::empty(), ..old(self)@ }),
    {
        self.m32_arguments.clear();
    }

    pub fn clear_args64(&mut self)
        ensures
            final(self)@ == (ConfigModel { args64: Seq::empty(), ..old(self)@ }),
    {
        self.m64_arguments.clear();
    }

    pub fn header(&self) -> (header: bool)
        ensures
            header == self@.header,
    {
        self.header
    }

    pub fn args32(&self) -> (args: &[&'a str])
        ensures
            texts(args@) == self@.args32,
    {
        self.m32_arguments.as_slice()
    }

    pub fn args64(&self) -> (args: &[&'a str])
        ensures
            texts(args@) == self@.args64,
    {
        self.m64_arguments.as_slice()
    }

    pub fn with_relaxed_struct_parsing(self, relaxed: bool) -> (config: Self)
        ensures
            config@ == (ConfigModel { relaxed_struct_parsing: relaxed, ..self@ }),
    {
        let mut config = self;
        config.set_relaxed_struct_parsing(relaxed);
        config
    }

    pub fn set_relaxed_struct_parsing(&mut self, relaxed: bool)
        ensures
            final(self)@ == (ConfigModel { relaxed_struct_parsing: relaxed, ..old(self)@ }),
    {
        self.relaxed_struct_parsing = relaxed;
    }
}

} // verus!
