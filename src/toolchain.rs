//! The tools that builds run: where each executable is, for which platforms.
use vstd::prelude::*;
use crate::platform::{ArchType, OperatingSystem, Platform};
use crate::text::{clone_opt, contains_exec, contains_spec, copy_str};
use crate::variables::opt_view;

verus! {

/// The first candidate that was found, given what the lookup of each
/// candidate gave, in the candidates' order.
pub open spec fn first_found(found: Seq<Option<String>>) -> Option<String>
    decreases found.len(),
{
    if found.len() == 0 {
        None
    } else if found[0] is Some {
        found[0]
    } else {
        first_found(found.drop_first())
    }
}

/// Picks the first candidate that a lookup found.
pub fn first_which(found: &Vec<Option<String>>) -> (r: Option<String>)
    ensures
        r == first_found(found@),
{
    let mut i: usize = 0;
    assert(found@.subrange(0, found@.len() as int) =~= found@);
    while i < found.len()
        invariant
            i <= found.len(),
            first_found(found@) == first_found(found@.subrange(i as int, found@.len() as int)),
        decreases found.len() - i,
    {
        let ghost rest = found@.subrange(i as int, found@.len() as int);
        assert(rest.drop_first() =~= found@.subrange(i + 1, found@.len() as int));
        if found[i].is_some() {
            return clone_opt(&found[i]);
        }
        i = i + 1;
    }
    None
}

/// The path of the first directory entry whose file name contains `tool`;
/// each entry is a file name and its path.
pub open spec fn resolve_spec(entries: Seq<(String, String)>, tool: Seq<char>) -> Option<Seq<char>>
    decreases entries.len(),
{
    if entries.len() == 0 {
        None
    } else if contains_spec(entries[0].0@, tool) {
        Some(entries[0].1@)
    } else {
        resolve_spec(entries.drop_first(), tool)
    }
}

/// Finds a tool among the entries of a toolchain directory.
pub fn resolve_toolchain_path(entries: &Vec<(String, String)>, tool: &str) -> (r: Option<String>)
    ensures
        opt_view(r) == resolve_spec(entries@, tool@),
{
    let mut i: usize = 0;
    assert(entries@.subrange(0, entries@.len() as int) =~= entries@);
    while i < entries.len()
        invariant
            i <= entries.len(),
            resolve_spec(entries@, tool@) == resolve_spec(
                entries@.subrange(i as int, entries@.len() as int),
                tool@,
            ),
        decreases entries.len() - i,
    {
        let ghost rest = entries@.subrange(i as int, entries@.len() as int);
        assert(rest.drop_first() =~= entries@.subrange(i + 1, entries@.len() as int));
        if contains_exec(entries[i].0.as_str(), tool) {
            return Some(entries[i].1.clone());
        }
        i = i + 1;
    }
    None
}

/// The main tools, as found on the host.
pub struct HostTools {
    pub git: String,
    pub docker: String,
    pub trunk: String,
    pub kubectl: Option<String>,
    pub minikube: Option<String>,
}

/// The compiler and binary tools of a toolchain.
pub struct CompilerTools {
    pub cc: String,
    pub cxx: String,
    pub ar: String,
    pub ranlib: String,
    pub nm: String,
    pub strip: String,
    pub objdump: String,
    pub objcopy: String,
    pub ld: String,
}

pub struct ToolchainContext {
    pub host: Platform,
    pub target: Platform,
    pub git: String,
    pub docker: String,
    pub trunk: String,
    pub kubectl: Option<String>,
    pub minikube: Option<String>,
    pub cc: String,
    pub cxx: String,
    pub ar: String,
    pub ranlib: String,
    pub nm: String,
    pub strip: String,
    pub objdump: String,
    pub objcopy: String,
    pub ld: String,
}

/// Why no toolchain fits the platforms.
pub enum ToolchainError {
    UnsupportedHost(String),
}

/// Where a cross toolchain lives for a macOS host, by target architecture.
pub open spec fn cross_dir_spec(arch: ArchType) -> Seq<char> {
    match arch {
        ArchType::X86_64 => "/opt/homebrew/Cellar/x86_64-unknown-linux-gnu/7.2.0/bin/"@,
        ArchType::AARCH64 => "/opt/homebrew/Cellar/aarch64-unknown-linux-gnu/7.2.0/bin/"@,
    }
}

impl ToolchainContext {
    /// The host's own toolchain, for a host building for itself.
    pub fn default(platform: Platform, tools: HostTools, compilers: CompilerTools) -> (r: Self)
        ensures
            r == (ToolchainContext {
                host: platform,
                target: platform,
                git: tools.git,
                docker: tools.docker,
                trunk: tools.trunk,
                kubectl: tools.kubectl,
                minikube: tools.minikube,
                cc: compilers.cc,
                cxx: compilers.cxx,
                ar: compilers.ar,
                ranlib: compilers.ranlib,
                nm: compilers.nm,
                strip: compilers.strip,
                objdump: compilers.objdump,
                objcopy: compilers.objcopy,
                ld: compilers.ld,
            }),
    {
        ToolchainContext {
            host: platform,
            target: platform,
            git: tools.git,
            docker: tools.docker,
            trunk: tools.trunk,
            kubectl: tools.kubectl,
            minikube: tools.minikube,
            cc: compilers.cc,
            cxx: compilers.cxx,
            ar: compilers.ar,
            ranlib: compilers.ranlib,
            nm: compilers.nm,
            strip: compilers.strip,
            objdump: compilers.objdump,
            objcopy: compilers.objcopy,
            ld: compilers.ld,
        }
    }

    /// A toolchain from the entries of its directory; `None` when one of the
    /// compiler tools is not there.
    pub fn from_path(platform: Platform, tools: HostTools, entries: &Vec<(String, String)>) -> (r:
        Option<Self>)
        ensures
            r is Some <==> (resolve_spec(entries@, "gcc"@) is Some && resolve_spec(
                entries@,
                "g++"@,
            ) is Some && resolve_spec(entries@, "ar"@) is Some && resolve_spec(
                entries@,
                "ranlib"@,
            ) is Some && resolve_spec(entries@, "nm"@) is Some && resolve_spec(
                entries@,
                "strip"@,
            ) is Some && resolve_spec(entries@, "objdump"@) is Some && resolve_spec(
                entries@,
                "objcopy"@,
            ) is Some && resolve_spec(entries@, "ld"@) is Some),
            r is Some ==> {
                let t = r->0;
                &&& Some(t.cc@) == resolve_spec(entries@, "gcc"@)
                &&& Some(t.cxx@) == resolve_spec(entries@, "g++"@)
                &&& Some(t.ar@) == resolve_spec(entries@, "ar"@)
                &&& Some(t.ranlib@) == resolve_spec(entries@, "ranlib"@)
                &&& Some(t.nm@) == resolve_spec(entries@, "nm"@)
                &&& Some(t.strip@) == resolve_spec(entries@, "strip"@)
                &&& Some(t.objdump@) == resolve_spec(entries@, "objdump"@)
                &&& Some(t.objcopy@) == resolve_spec(entries@, "objcopy"@)
                &&& Some(t.ld@) == resolve_spec(entries@, "ld"@)
                &&& t.host == platform
                &&& t.target == platform
                &&& t.git == tools.git
                &&& t.docker == tools.docker
            },
    {
        let cc = resolve_toolchain_path(entries, "gcc")?;
        let cxx = resolve_toolchain_path(entries, "g++")?;
        let ar = resolve_toolchain_path(entries, "ar")?;
        let ranlib = resolve_toolchain_path(entries, "ranlib")?;
        let nm = resolve_toolchain_path(entries, "nm")?;
        let strip = resolve_toolchain_path(entries, "strip")?;
        let objdump = resolve_toolchain_path(entries, "objdump")?;
        let objcopy = resolve_toolchain_path(entries, "objcopy")?;
        let ld = resolve_toolchain_path(entries, "ld")?;
        Some(
            ToolchainContext::default(
                platform,
                tools,
                CompilerTools { cc, cxx, ar, ranlib, nm, strip, objdump, objcopy, ld },
            ),
        )
    }

    /// The first of several toolchain directories that holds a toolchain.
    pub fn from_first_path(
        platform: Platform,
        tools: HostTools,
        listings: &Vec<Vec<(String, String)>>,
    ) -> (r: Option<Self>)
        ensures
            r is Some <==> exists|i: int|
                0 <= i < listings@.len() && resolve_spec(listings@[i]@, "gcc"@) is Some
                    && resolve_spec(listings@[i]@, "g++"@) is Some && resolve_spec(
                    listings@[i]@,
                    "ar"@,
                ) is Some && resolve_spec(listings@[i]@, "ranlib"@) is Some && resolve_spec(
                    listings@[i]@,
                    "nm"@,
                ) is Some && resolve_spec(listings@[i]@, "strip"@) is Some && resolve_spec(
                    listings@[i]@,
                    "objdump"@,
                ) is Some && resolve_spec(listings@[i]@, "objcopy"@) is Some && resolve_spec(
                    listings@[i]@,
                    "ld"@,
                ) is Some,
    {
        let mut i: usize = 0;
        let mut tools = tools;
        while i < listings.len()
            invariant
                i <= listings.len(),
                forall|j: int|
                    0 <= j < i ==> !(resolve_spec(listings@[j]@, "gcc"@) is Some && resolve_spec(
                        listings@[j]@,
                        "g++"@,
                    ) is Some && resolve_spec(listings@[j]@, "ar"@) is Some && resolve_spec(
                        listings@[j]@,
                        "ranlib"@,
                    ) is Some && resolve_spec(listings@[j]@, "nm"@) is Some && resolve_spec(
                        listings@[j]@,
                        "strip"@,
                    ) is Some && resolve_spec(listings@[j]@, "objdump"@) is Some
                        && resolve_spec(listings@[j]@, "objcopy"@) is Some && resolve_spec(
                        listings@[j]@,
                        "ld"@,
                    ) is Some),
            decreases listings.len() - i,
        {
            let attempt = HostTools {
                git: tools.git.clone(),
                docker: tools.docker.clone(),
                trunk: tools.trunk.clone(),
                kubectl: clone_opt(&tools.kubectl),
                minikube: clone_opt(&tools.minikube),
            };
            match ToolchainContext::from_path(platform, attempt, &listings[i]) {
                Some(t) => return Some(t),
                None => {},
            }
            i = i + 1;
        }
        None
    }

    /// Where to look for a toolchain that builds for `target` on `host`:
    /// `None` when they are the same platform and the host's own tools serve.
    pub fn cross_toolchain_dir(host: Platform, target: Platform) -> (r: Result<
        Option<String>,
        ToolchainError,
    >)
        ensures
            host == target ==> r == Ok::<Option<String>, ToolchainError>(None),
            host != target && host.os == OperatingSystem::MacOS ==> r is Ok && opt_view(r->Ok_0)
                == Some(cross_dir_spec(target.arch)),
            host != target && host.os != OperatingSystem::MacOS ==> r is Err,
    {
        if host.arch == target.arch && host.os == target.os {
            Ok(None)
        } else if host.os == OperatingSystem::MacOS {
            match target.arch {
                ArchType::X86_64 => Ok(
                    Some(copy_str("/opt/homebrew/Cellar/x86_64-unknown-linux-gnu/7.2.0/bin/")),
                ),
                ArchType::AARCH64 => Ok(
                    Some(copy_str("/opt/homebrew/Cellar/aarch64-unknown-linux-gnu/7.2.0/bin/")),
                ),
            }
        } else {
            Err(ToolchainError::UnsupportedHost(host.to_string()))
        }
    }

    /// The toolchain `base`, set to build on `host` for `target`.
    pub fn new(host: Platform, target: Platform, base: ToolchainContext) -> (r: Self)
        ensures
            r == (ToolchainContext { host, target, ..base }),
    {
        let mut ret = base;
        ret.host = host;
        ret.target = target;
        ret
    }

    pub fn host(&self) -> (r: &Platform)
        ensures
            *r == self.host,
    {
        &self.host
    }

    pub fn target(&self) -> (r: &Platform)
        ensures
            *r == self.target,
    {
        &self.target
    }

    pub fn has_minikube(&self) -> (r: bool)
        ensures
            r == self.minikube is Some,
    {
        self.minikube.is_some()
    }

    pub fn minikube(&self) -> (r: Option<String>)
        ensures
            r == self.minikube,
    {
        clone_opt(&self.minikube)
    }

    pub fn docker(&self) -> (r: &str)
        ensures
            r@ == self.docker@,
    {
        self.docker.as_str()
    }

    pub fn trunk(&self) -> (r: &str)
        ensures
            r@ == self.trunk@,
    {
        self.trunk.as_str()
    }

    pub fn has_kubectl(&self) -> (r: bool)
        ensures
            r == self.kubectl is Some,
    {
        self.kubectl.is_some()
    }

    /// The cluster CLI; a toolchain without one has none to give.
    pub fn kubectl(&self) -> (r: &str)
        requires
            self.kubectl is Some,
        ensures
            r@ == self.kubectl->0@,
    {
        match &self.kubectl {
            Some(k) => k.as_str(),
            None => "",
        }
    }

    pub fn git(&self) -> (r: &str)
        ensures
            r@ == self.git@,
    {
        self.git.as_str()
    }

    /// The variables that point builds at this toolchain's compiler tools, in
    /// the order `CC`, `CXX`, `AR`, `RANLIB`, `NM`, `STRIP`, `OBJDUMP`,
    /// `OBJCOPY`, `LD`.
    pub fn env_assignments(&self) -> (r: Vec<(String, String)>)
        ensures
            r@.len() == 9,
            r@[0].0@ == "CC"@ && r@[0].1 == self.cc,
            r@[1].0@ == "CXX"@ && r@[1].1 == self.cxx,
            r@[2].0@ == "AR"@ && r@[2].1 == self.ar,
            r@[3].0@ == "RANLIB"@ && r@[3].1 == self.ranlib,
            r@[4].0@ == "NM"@ && r@[4].1 == self.nm,
            r@[5].0@ == "STRIP"@ && r@[5].1 == self.strip,
            r@[6].0@ == "OBJDUMP"@ && r@[6].1 == self.objdump,
            r@[7].0@ == "OBJCOPY"@ && r@[7].1 == self.objcopy,
            r@[8].0@ == "LD"@ && r@[8].1 == self.ld,
    {
        let mut r: Vec<(String, String)> = Vec::new();
        r.push((copy_str("CC"), self.cc.clone()));
        r.push((copy_str("CXX"), self.cxx.clone()));
        r.push((copy_str("AR"), self.ar.clone()));
        r.push((copy_str("RANLIB"), self.ranlib.clone()));
        r.push((copy_str("NM"), self.nm.clone()));
        r.push((copy_str("STRIP"), self.strip.clone()));
        r.push((copy_str("OBJDUMP"), self.objdump.clone()));
        r.push((copy_str("OBJCOPY"), self.objcopy.clone()));
        r.push((copy_str("LD"), self.ld.clone()));
        r
    }

    pub fn duplicate(&self) -> (r: Self)
        ensures
            r == *self,
    {
        ToolchainContext {
            host: self.host,
            target: self.target,
            git: self.git.clone(),
            docker: self.docker.clone(),
            trunk: self.trunk.clone(),
            kubectl: clone_opt(&self.kubectl),
            minikube: clone_opt(&self.minikube),
            cc: self.cc.clone(),
            cxx: self.cxx.clone(),
            ar: self.ar.clone(),
            ranlib: self.ranlib.clone(),
            nm: self.nm.clone(),
            strip: self.strip.clone(),
            objdump: self.objdump.clone(),
            objcopy: self.objcopy.clone(),
            ld: self.ld.clone(),
        }
    }
}

} // verus!
