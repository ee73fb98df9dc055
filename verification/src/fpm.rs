//! Auxiliary process-manager discovery: deriving the sibling `php-fpm`
//! binary's path from the discovered interpreter binary's path, and writing
//! the bundled manager-configuration template to an ephemeral file.
//!
//! Paths are treated as plain `/`-separated strings; a parent directory is
//! what precedes the last separator.

use crate::context::Context;
use crate::ephemeral::EphemeralConfigFile;
use crate::text::{last_slash, rfind_slash_before};
use vstd::prelude::*;

verus! {

/// The bundled process-manager configuration template, written verbatim to
/// the ephemeral manager-configuration file.
pub const FPM_CONF_TEMPLATE: &'static str = "[global]\nerror_log = /tmp/php-fpm.log\ndaemonize = no\n\n[www]\nlisten = 127.0.0.1:9000\npm = static\npm.max_children = 2\n";

/// The process manager's file-name suffix carried over from the
/// interpreter binary's file name: what follows the standard `php` prefix,
/// empty when the name does not start with it.
pub open spec fn fpm_suffix(name: Seq<char>) -> Seq<char> {
    if name.len() >= 3 && name.subrange(0, 3) == "php"@ {
        name.skip(3)
    } else {
        Seq::<char>::empty()
    }
}

/// The derived process-manager path for an interpreter binary at `bin`:
/// the binary's grandparent directory joined with `sbin/php-fpm<suffix>`.
/// `None` exactly when the path has no parent or grandparent directory.
pub open spec fn php_fpm_path(bin: Seq<char>) -> Option<Seq<char>> {
    let i = last_slash(bin);
    if i < 0 {
        None
    } else {
        let dir = bin.subrange(0, i);
        let j = last_slash(dir);
        if j < 0 {
            None
        } else {
            Some(
                dir.subrange(0, j) + "/sbin/php-fpm"@ + fpm_suffix(
                    bin.subrange(i + 1, bin.len() as int),
                ),
            )
        }
    }
}

impl Context {
    /// Derives the sibling `php-fpm` process-manager path from the
    /// discovered interpreter binary's path: the binary's grandparent
    /// directory, then `sbin/php-fpm<suffix>`, where `<suffix>` is what
    /// follows the `php` prefix of the binary's file name (empty when the
    /// name does not start with `php`). Returns `None` exactly when the
    /// binary path has no parent or grandparent directory.
    pub fn find_php_fpm(&self) -> (r: Option<String>)
        ensures
            match r {
                Some(p) => php_fpm_path(self.php_bin@) == Some(p@),
                None => php_fpm_path(self.php_bin@) is None,
            },
    {
        let s = self.php_bin.as_str();
        let n = s.unicode_len();
        proof {
            assert(s@.subrange(0, n as int) =~= s@);
        }
        match rfind_slash_before(s, n) {
            None => None,
            Some(i) => {
                let ghost dir = s@.subrange(0, i as int);
                match rfind_slash_before(s, i) {
                    None => None,
                    Some(j) => {
                        let mut out = s.substring_char(0, j).to_owned();
                        out.append("/sbin/php-fpm");
                        let ghost name = s@.subrange(i + 1, n as int);
                        proof {
                            reveal_strlit("php");
                            assert(name.len() == n - i - 1);
                        }
                        if n - i >= 4 && s.get_char(i + 1) == 'p' && s.get_char(i + 2) == 'h'
                            && s.get_char(i + 3) == 'p' {
                            let suffix = s.substring_char(i + 4, n);
                            out.append(suffix);
                            proof {
                                assert(name.subrange(0, 3) =~= "php"@);
                                assert(name.skip(3) =~= s@.subrange(i + 4, n as int));
                            }
                        } else {
                            proof {
                                if name.len() >= 3 && name.subrange(0, 3) == "php"@ {
                                    assert(name.subrange(0, 3)[0] == s@[i + 1]);
                                    assert(name.subrange(0, 3)[1] == s@[i + 2]);
                                    assert(name.subrange(0, 3)[2] == s@[i + 3]);
                                    assert(false);
                                }
                                assert(out@ =~= dir.subrange(0, j as int) + "/sbin/php-fpm"@
                                    + fpm_suffix(name));
                            }
                        }
                        Some(out)
                    },
                }
            },
        }
    }

    /// Writes the bundled process-manager configuration template, verbatim
    /// and with no substitution, to a new uniquely named temporary file.
    /// The file is deleted when the returned handle goes out of scope.
    pub fn create_tmp_fpm_conf_file(&self) -> (r: EphemeralConfigFile)
        ensures
            r.content@ == FPM_CONF_TEMPLATE@,
    {
        EphemeralConfigFile::create(FPM_CONF_TEMPLATE.to_owned())
    }
}

} // verus!
