use vstd::prelude::*;

verus! {

/// How a kernel is built: the initial ram file system it boots with, the
/// configuration file (beside the kernel sources) and the build directory.
pub struct KernelBuilder {
    init_ram_fs: String,
    config: String,
    build_dir: String,
}

impl KernelBuilder {
    pub closed spec fn spec_init_ram_fs(&self) -> Seq<char> {
        self.init_ram_fs@
    }

    pub closed spec fn spec_config(&self) -> Seq<char> {
        self.config@
    }

    pub closed spec fn spec_build_dir(&self) -> Seq<char> {
        self.build_dir@
    }

    pub fn new(init_ram_fs: String, build_dir: String, config: String) -> (r: KernelBuilder)
        ensures
            r.spec_init_ram_fs() == init_ram_fs@,
            r.spec_build_dir() == build_dir@,
            r.spec_config() == config@,
    {
        KernelBuilder { init_ram_fs, config, build_dir }
    }

    pub fn init_ram_fs(&self) -> (r: &String)
        ensures
            r@ == self.spec_init_ram_fs(),
    {
        &self.init_ram_fs
    }

    pub fn config(&self) -> (r: &String)
        ensures
            r@ == self.spec_config(),
    {
        &self.config
    }

    pub fn build_dir(&self) -> (r: &String)
        ensures
            r@ == self.spec_build_dir(),
    {
        &self.build_dir
    }
}

} // verus!
