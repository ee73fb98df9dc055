//! The discovery context: the interpreter binary's path together with the
//! merged text of its active configuration files, and the builders that
//! derive an ephemeral configuration file and an isolated interpreter
//! invocation from it.

use crate::ephemeral::EphemeralConfigFile;
use crate::text::{concat_all, views_of};
use vstd::prelude::*;

verus! {

/// The process-wide discovery result: the interpreter binary's path and the
/// merged text of its active configuration files. The embedding application
/// computes it once per process and hands out shared references.
pub struct Context {
    /// Absolute path of the interpreter binary.
    pub php_bin: String,
    /// Concatenated text of the primary and scanned configuration files.
    pub ini_content: String,
}

/// The merged configuration text: the primary configuration file's content
/// (empty when no primary file is loaded) followed by each scanned file's
/// content in list order, with no separators added.
pub open spec fn merged_config(primary: Option<Seq<char>>, scanned: Seq<Seq<char>>) -> Seq<char> {
    (match primary {
        Some(p) => p,
        None => Seq::<char>::empty(),
    }) + concat_all(scanned)
}

/// The full text of an ephemeral configuration file that loads the
/// extension at `ext` on top of the base configuration `base`: the base
/// text followed by exactly one line `extension=<ext>`.
pub open spec fn ephemeral_config_text(base: Seq<char>, ext: Seq<char>) -> Seq<char> {
    base + "extension="@ + ext + "\n"@
}

impl Context {
    /// Assembles the discovery result from the interpreter binary's path,
    /// the primary configuration file's content (`None` when no primary
    /// file is loaded), and the scanned configuration files' contents in
    /// list order.
    pub fn new(php_bin: String, primary: Option<String>, scanned: Vec<String>) -> (c: Context)
        ensures
            c.php_bin@ == php_bin@,
            c.ini_content@ == merged_config(
                match primary {
                    Some(p) => Some(p@),
                    None => None,
                },
                views_of(scanned@),
            ),
    {
        let mut ini_content = match primary {
            Some(p) => p,
            None => String::new(),
        };
        let ghost base = ini_content@;
        let ghost m = views_of(scanned@);
        let mut k: usize = 0;
        proof {
            assert(m.take(0) =~= Seq::<Seq<char>>::empty());
        }
        while k < scanned.len()
            invariant
                k <= scanned.len(),
                m == views_of(scanned@),
                ini_content@ == base + concat_all(m.take(k as int)),
            decreases scanned.len() - k,
        {
            ini_content.append(scanned[k].as_str());
            proof {
                assert(m.take(k + 1).drop_last() =~= m.take(k as int));
                assert(m.take(k + 1).last() == m[k as int]);
                assert(m[k as int] == scanned@[k as int]@);
            }
            k = k + 1;
        }
        proof {
            assert(m.take(scanned@.len() as int) =~= m);
        }
        Context { php_bin, ini_content }
    }

    /// The text that [`Context::create_tmp_php_ini_file`] writes: the
    /// merged configuration followed by one line loading the extension at
    /// `lib_path`.
    pub fn build_tmp_php_ini_content(&self, lib_path: &str) -> (r: String)
        ensures
            r@ == ephemeral_config_text(self.ini_content@, lib_path@),
    {
        let mut r = self.ini_content.clone();
        r.append("extension=");
        r.append(lib_path);
        r.append("\n");
        r
    }

    /// Creates a new uniquely named temporary configuration file holding
    /// the merged configuration plus a line loading the extension at
    /// `lib_path`. The file is deleted when the returned handle goes out of
    /// scope.
    pub fn create_tmp_php_ini_file(&self, lib_path: &str) -> (r: EphemeralConfigFile)
        ensures
            r.content@ == ephemeral_config_text(self.ini_content@, lib_path@),
    {
        EphemeralConfigFile::create(self.build_tmp_php_ini_content(lib_path))
    }

    /// Builds an invocation of the discovered interpreter binary with
    /// exactly four arguments in fixed order: `-n` (ignore any ambient
    /// configuration), `-c`, the ephemeral configuration file's path, and
    /// the script path. Spawning belongs to the caller.
    pub fn create_command_with_tmp_php_ini_args(
        &self,
        tmp_php_ini_file: &EphemeralConfigFile,
        script: &str,
    ) -> (r: ContextCommand)
        ensures
            r.program@ == self.php_bin@,
            r.args@.len() == 4,
            r.args@[0]@ == "-n"@,
            r.args@[1]@ == "-c"@,
            r.args@[2]@ == tmp_php_ini_file.path@,
            r.args@[3]@ == script@,
    {
        let program = self.php_bin.clone();
        let mut args: Vec<String> = Vec::new();
        args.push("-n".to_owned());
        args.push("-c".to_owned());
        args.push(tmp_php_ini_file.path.clone());
        args.push(script.to_owned());
        ContextCommand { program, args }
    }
}

/// A ready-to-spawn interpreter invocation: the program to run and its
/// arguments in order. Immutable once built; the embedding application
/// turns it into an operating-system process.
pub struct ContextCommand {
    /// The program to run: the discovered interpreter binary's path.
    pub program: String,
    /// The arguments, in order.
    pub args: Vec<String>,
}

impl ContextCommand {
    /// The invocation's resolved argument list, for inspection.
    pub fn get_args(&self) -> (r: &[String])
        ensures
            r@ == self.args@,
    {
        self.args.as_slice()
    }
}

} // verus!
