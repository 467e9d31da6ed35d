//! Configuration for opening a shared-memory queue.
use vstd::prelude::*;
use crate::layout::BUFFER_BYTE_OFFSET;
use crate::semaphore::{posix_name_text, semaphore_name_text};
use crate::text::{decimal_text, join_path, joined_path, push_decimal};

verus! {

/// Linux tmpfs directory used for file-backed queues and for interop with stacks that expect
/// `/dev/shm`.
pub const LINUX_SHM_MEMORY_DIR: &'static str = "/dev/shm/.cloudtoid/interprocess/mmf";

/// Linux-only default directory (same as [`LINUX_SHM_MEMORY_DIR`]); prefer
/// [`default_memory_dir`] for portable defaults.
pub const DEFAULT_MEMORY_DIR: &'static str = "/dev/shm/.cloudtoid/interprocess/mmf";

/// Legacy alias for [`LINUX_SHM_MEMORY_DIR`].
pub const MEMORY_FILE_PATH: &'static str = "/dev/shm/.cloudtoid/interprocess/mmf";

/// Subdirectory of the temporary directory that holds queue files where `/dev/shm` is not used.
pub const TEMP_MEMORY_SUBDIR: &'static str = ".cloudtoid/interprocess/mmf";

/// Lower bound of the capacity: it and every smaller capacity are rejected.
const MIN_CAPACITY: i64 = 17;

/// The directory for `.qu` backing files when none is given.
///
/// An override (the `RENDERIDE_INTERPROCESS_DIR` environment variable, read by the caller) wins;
/// otherwise Linux uses [`LINUX_SHM_MEMORY_DIR`] under `/dev/shm`, and other systems use
/// [`TEMP_MEMORY_SUBDIR`] under their temporary directory `temp_dir`.
pub open spec fn default_memory_dir_text(
    env_dir: Option<Seq<char>>,
    on_linux: bool,
    temp_dir: Seq<char>,
) -> Seq<char> {
    match env_dir {
        Some(d) => d,
        None => if on_linux {
            LINUX_SHM_MEMORY_DIR@
        } else {
            joined_path(temp_dir, TEMP_MEMORY_SUBDIR@)
        },
    }
}

/// Returns the default directory for `.qu` backing files (see [`default_memory_dir_text`]).
pub fn default_memory_dir(env_dir: Option<String>, on_linux: bool, temp_dir: &str) -> (dir: String)
    ensures
        dir@ == default_memory_dir_text(
            match env_dir {
                Some(d) => Some(d@),
                None => None,
            },
            on_linux,
            temp_dir@,
        ),
{
    match env_dir {
        Some(d) => d,
        None => if on_linux {
            String::from_str(LINUX_SHM_MEMORY_DIR)
        } else {
            join_path(temp_dir, TEMP_MEMORY_SUBDIR)
        },
    }
}

/// Whether a ring capacity is accepted: more than 17 bytes and a multiple of 8.
pub open spec fn valid_capacity(capacity: int) -> bool {
    capacity > 17 && capacity % 8 == 0
}

/// The message with which an invalid capacity is rejected; the lower bound is checked first.
pub open spec fn capacity_error_text(capacity: int) -> Seq<char> {
    if capacity <= 17 {
        "capacity must be greater than "@ + decimal_text(17) + " (got "@ + decimal_text(capacity)
            + ")"@
    } else {
        "capacity must be a multiple of 8 bytes (got "@ + decimal_text(capacity) + ")"@
    }
}

/// Options for creating a publisher or subscriber of a queue.
#[derive(Clone)]
pub struct QueueOptions {
    /// Logical queue name (maps to `{dir}/{name}.qu` on Unix and `CT_IP_{name}` on Windows).
    pub memory_view_name: String,
    /// Directory containing `.qu` files on Unix; ignored for the default Windows named-mapping
    /// backend.
    pub path: String,
    /// Ring buffer capacity in bytes (user data only; excludes the queue header).
    pub capacity: i64,
    /// When `true`, remove the backing file (Unix) when the handle is dropped.
    pub destroy_on_dispose: bool,
}

/// The abstract value of [`QueueOptions`]: its fields, the strings as text.
pub struct QueueOptionsView {
    pub memory_view_name: Seq<char>,
    pub path: Seq<char>,
    pub capacity: i64,
    pub destroy_on_dispose: bool,
}

impl View for QueueOptions {
    type V = QueueOptionsView;

    open spec fn view(&self) -> QueueOptionsView {
        QueueOptionsView {
            memory_view_name: self.memory_view_name@,
            path: self.path@,
            capacity: self.capacity,
            destroy_on_dispose: self.destroy_on_dispose,
        }
    }
}

/// What building options from these values gives: the options, or the message that rejects the
/// capacity.
pub open spec fn queue_options_outcome(
    queue_name: Seq<char>,
    path: Seq<char>,
    capacity: i64,
    destroy_on_dispose: bool,
) -> Result<QueueOptionsView, Seq<char>> {
    if valid_capacity(capacity as int) {
        Ok(
            QueueOptionsView {
                memory_view_name: queue_name,
                path,
                capacity,
                destroy_on_dispose,
            },
        )
    } else {
        Err(capacity_error_text(capacity as int))
    }
}

/// A built result taken by its view.
pub open spec fn options_result_view(r: Result<QueueOptions, String>) -> Result<
    QueueOptionsView,
    Seq<char>,
> {
    match r {
        Ok(o) => Ok(o@),
        Err(m) => Err(m@),
    }
}

impl QueueOptions {
    /// Validates `capacity` and returns an error message if invalid.
    pub fn validate_capacity(capacity: i64) -> (res: Result<(), String>)
        ensures
            res is Ok <==> valid_capacity(capacity as int),
            res matches Err(m) ==> m@ == capacity_error_text(capacity as int),
    {
        if capacity <= MIN_CAPACITY {
            let mut m = String::from_str("capacity must be greater than ");
            push_decimal(&mut m, MIN_CAPACITY);
            m.append(" (got ");
            push_decimal(&mut m, capacity);
            m.append(")");
            return Err(m);
        }
        if (capacity as u64) % 8 != 0 {
            let mut m = String::from_str("capacity must be a multiple of 8 bytes (got ");
            push_decimal(&mut m, capacity);
            m.append(")");
            return Err(m);
        }
        Ok(())
    }

    /// Full control over directory and `destroy_on_dispose`.
    pub fn with_path_and_destroy(
        queue_name: &str,
        path: &str,
        capacity: i64,
        destroy_on_dispose: bool,
    ) -> (res: Result<QueueOptions, String>)
        ensures
            options_result_view(res) == queue_options_outcome(
                queue_name@,
                path@,
                capacity,
                destroy_on_dispose,
            ),
    {
        match Self::validate_capacity(capacity) {
            Err(m) => Err(m),
            Ok(()) => Ok(
                QueueOptions {
                    memory_view_name: String::from_str(queue_name),
                    path: String::from_str(path),
                    capacity,
                    destroy_on_dispose,
                },
            ),
        }
    }

    /// Full control over the backing directory; the backing file is kept on drop.
    pub fn with_path(queue_name: &str, path: &str, capacity: i64) -> (res: Result<QueueOptions, String>)
        ensures
            options_result_view(res) == queue_options_outcome(queue_name@, path@, capacity, false),
    {
        Self::with_path_and_destroy(queue_name, path, capacity, false)
    }

    /// Options in the default directory `memory_dir` (what [`default_memory_dir`] resolves to),
    /// choosing whether the backing file is removed on drop (Unix).
    pub fn with_destroy(queue_name: &str, capacity: i64, destroy_on_dispose: bool, memory_dir: &str) -> (res:
        Result<QueueOptions, String>)
        ensures
            options_result_view(res) == queue_options_outcome(
                queue_name@,
                memory_dir@,
                capacity,
                destroy_on_dispose,
            ),
    {
        Self::with_path_and_destroy(queue_name, memory_dir, capacity, destroy_on_dispose)
    }

    /// Options in the default directory `memory_dir` (what [`default_memory_dir`] resolves to),
    /// keeping the backing file on drop.
    pub fn new(queue_name: &str, capacity: i64, memory_dir: &str) -> (res: Result<QueueOptions, String>)
        ensures
            options_result_view(res) == queue_options_outcome(queue_name@, memory_dir@, capacity, false),
    {
        Self::with_path_and_destroy(queue_name, memory_dir, capacity, false)
    }

    /// Total file / mapping size: header + ring capacity.
    pub fn actual_storage_size(&self) -> (size: i64)
        requires
            BUFFER_BYTE_OFFSET + self.capacity <= i64::MAX,
        ensures
            size == BUFFER_BYTE_OFFSET + self.capacity,
    {
        BUFFER_BYTE_OFFSET as i64 + self.capacity
    }

    /// Path to the `.qu` backing file on Unix: the file `{memory_view_name}.qu` in [`Self::path`].
    pub fn file_path(&self) -> (file: String)
        ensures
            file@ == joined_path(self.path@, self.memory_view_name@ + ".qu"@),
    {
        let mut name = self.memory_view_name.clone();
        name.append(".qu");
        join_path(self.path.as_str(), name.as_str())
    }

    /// POSIX semaphore name (`/ct.ip.{memory_view_name}`).
    pub fn posix_semaphore_name(&self) -> (name: String)
        ensures
            name@ == posix_name_text(self.memory_view_name@),
    {
        let mut name = String::from_str("/ct.ip.");
        name.append(self.memory_view_name.as_str());
        name
    }
}


/// Accepted options always have a capacity above 17 that is a multiple of 8, so the mapping they
/// ask for (header and ring) is larger than the header alone and a multiple of 8 bytes.
pub proof fn lemma_accepted_options_are_well_sized(
    queue_name: Seq<char>,
    path: Seq<char>,
    capacity: i64,
    destroy_on_dispose: bool,
)
    ensures
        queue_options_outcome(queue_name, path, capacity, destroy_on_dispose) matches Ok(v) ==> {
            &&& v.capacity > 17
            &&& v.capacity % 8 == 0
            &&& BUFFER_BYTE_OFFSET + v.capacity > BUFFER_BYTE_OFFSET
            &&& (BUFFER_BYTE_OFFSET + v.capacity) % 8 == 0
        },
        queue_options_outcome(queue_name, path, capacity, destroy_on_dispose) is Err <==> !valid_capacity(
            capacity as int,
        ),
{
}

/// Outside macOS, the semaphore opened for a queue is the one that
/// [`QueueOptions::posix_semaphore_name`] names.
pub proof fn lemma_queue_semaphore_is_posix_name(memory_view_name: Seq<char>)
    ensures
        semaphore_name_text(memory_view_name, false) == posix_name_text(memory_view_name),
{
}


/// A capacity is accepted exactly when it is above 17 and a multiple of 8, with no upper bound;
/// the accepted options hold the given name, directory, capacity and flag unchanged, and a
/// rejection's message is the one for the first bound broken.
pub proof fn lemma_capacity_acceptance(
    queue_name: Seq<char>,
    path: Seq<char>,
    capacity: i64,
    destroy_on_dispose: bool,
)
    ensures
        queue_options_outcome(queue_name, path, capacity, destroy_on_dispose) is Ok <==> (capacity
            > 17 && capacity % 8 == 0),
        capacity > 17 && capacity % 8 == 0 ==> queue_options_outcome(
            queue_name,
            path,
            capacity,
            destroy_on_dispose,
        ) == Ok::<QueueOptionsView, Seq<char>>(
            QueueOptionsView { memory_view_name: queue_name, path, capacity, destroy_on_dispose },
        ),
        capacity <= 17 ==> queue_options_outcome(queue_name, path, capacity, destroy_on_dispose)
            == Err::<QueueOptionsView, Seq<char>>(
            "capacity must be greater than "@ + decimal_text(17) + " (got "@ + decimal_text(
                capacity as int,
            ) + ")"@,
        ),
        capacity > 17 && capacity % 8 != 0 ==> queue_options_outcome(
            queue_name,
            path,
            capacity,
            destroy_on_dispose,
        ) == Err::<QueueOptionsView, Seq<char>>(
            "capacity must be a multiple of 8 bytes (got "@ + decimal_text(capacity as int) + ")"@,
        ),
{
}

/// An override directory is used exactly as given; without one, Linux uses
/// `/dev/shm/.cloudtoid/interprocess/mmf` and other systems join `.cloudtoid/interprocess/mmf` to
/// their temporary directory.
pub proof fn lemma_default_memory_dir_choice(dir: Seq<char>, on_linux: bool, temp_dir: Seq<char>)
    ensures
        default_memory_dir_text(Some(dir), on_linux, temp_dir) == dir,
        default_memory_dir_text(None, true, temp_dir) == "/dev/shm/.cloudtoid/interprocess/mmf"@,
        default_memory_dir_text(None, false, temp_dir) == joined_path(
            temp_dir,
            ".cloudtoid/interprocess/mmf"@,
        ),
{
}

} // verus!
