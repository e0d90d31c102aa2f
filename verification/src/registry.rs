//! The destination directory: the one place that says where uploads go.

use vstd::prelude::*;
use crate::routes::{Reply, ServiceError};

verus! {

/// Whether `path` is absolute: it begins with `/`.
pub open spec fn is_absolute(path: Seq<char>) -> bool {
    path.len() > 0 && path[0] == '/'
}

/// The directory below the working directory that uploads go to until
/// another one is set.
pub open spec fn default_directory(working_dir: Seq<char>) -> Seq<char> {
    working_dir + "/uploads"@
}

/// Whether `path` is absolute.
pub fn is_absolute_path(path: &str) -> (absolute: bool)
    ensures
        absolute == is_absolute(path@),
{
    !path.is_empty() && path.get_char(0) == '/'
}

/// Holds the current destination directory. Its view is the path, which is
/// absolute at all times.
///
/// The path is replaced as a whole and only by `set`. Creating the
/// directory is the caller's business: `set` is told how that went and
/// keeps the old path when it failed.
pub struct DirectoryRegistry {
    path: String,
}

impl View for DirectoryRegistry {
    type V = Seq<char>;

    closed spec fn view(&self) -> Seq<char> {
        self.path@
    }
}

impl DirectoryRegistry {
    #[verifier::type_invariant]
    spec fn holds_absolute_path(&self) -> bool {
        is_absolute(self@)
    }

    /// A registry that holds `path`.
    pub fn new(path: String) -> (registry: DirectoryRegistry)
        requires
            is_absolute(path@),
        ensures
            registry@ == path@,
    {
        DirectoryRegistry { path }
    }

    /// A registry that holds the default directory below `working_dir`.
    pub fn in_working_dir(working_dir: &str) -> (registry: DirectoryRegistry)
        requires
            is_absolute(working_dir@),
        ensures
            registry@ == default_directory(working_dir@),
            is_absolute(registry@),
    {
        let mut path = working_dir.to_owned();
        path.append("/uploads");
        DirectoryRegistry { path }
    }

    /// The current destination directory, an absolute path.
    pub fn get(&self) -> (path: String)
        ensures
            path@ == self@,
            is_absolute(path@),
    {
        proof {
            use_type_invariant(self);
        }
        self.path.clone()
    }

    /// Makes `new_path` the destination directory, where it is absolute and
    /// `created` says that the directory is there (it existed or could be
    /// created). Otherwise the registry stays as it was and the error is
    /// `DirectoryError`.
    pub fn set(&mut self, new_path: String, created: bool) -> (outcome: Result<(), ServiceError>)
        ensures
            final(self)@ == directory_after(old(self)@, Some(new_path@), created),
            is_absolute(final(self)@),
            outcome == if is_absolute(new_path@) && created {
                Ok::<(), ServiceError>(())
            } else {
                Err::<(), ServiceError>(ServiceError::DirectoryError)
            },
    {
        proof {
            use_type_invariant(&*self);
        }
        if created && is_absolute_path(new_path.as_str()) {
            self.path = new_path;
            Ok(())
        } else {
            Err(ServiceError::DirectoryError)
        }
    }
}

/// The registry's path after a configuration request: `requested` is the
/// directory that the request named, if it could be read, and `created`
/// says whether that directory is there. The path changes only to an
/// absolute path whose directory is there.
pub open spec fn directory_after(
    current: Seq<char>,
    requested: Option<Seq<char>>,
    created: bool,
) -> Seq<char> {
    match requested {
        Some(path) if created && is_absolute(path) => path,
        _ => current,
    }
}

/// A configuration request leaves an absolute path absolute.
pub proof fn lemma_directory_stays_absolute(
    current: Seq<char>,
    requested: Option<Seq<char>>,
    created: bool,
)
    requires
        is_absolute(current),
    ensures
        is_absolute(directory_after(current, requested, created)),
{
}

/// Serves a configuration request. `requested` is the directory that the
/// request named, `None` where its body could not be read; `created` says
/// whether that directory is there. The registry takes the new path only if
/// it is absolute and its directory is there, and the reply says so.
pub fn handle_set_dir(
    registry: &mut DirectoryRegistry,
    requested: Option<String>,
    created: bool,
) -> (reply: Reply)
    ensures
        final(registry)@ == directory_after(
            old(registry)@,
            match requested {
                Some(path) => Some(path@),
                None => None,
            },
            created,
        ),
        is_absolute(final(registry)@),
        reply == if requested matches Some(path) && is_absolute(path@) && created {
            Reply::Done
        } else {
            Reply::InvalidDirectory
        },
{
    match requested {
        Some(path) => match registry.set(path, created) {
            Ok(_) => Reply::Done,
            Err(_) => Reply::InvalidDirectory,
        },
        None => {
            proof {
                use_type_invariant(&*registry);
            }
            Reply::InvalidDirectory
        },
    }
}

} // verus!
