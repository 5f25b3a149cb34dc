//! One backlight device's readings: loaded from a snapshot of its directory,
//! optionally mutated through a validated setter, and rendered back as the
//! text to persist or to report.

use vstd::prelude::*;
use crate::error::Error;
use crate::error::ErrorModel;
use crate::text::dec_rep;
use crate::text::lemma_parse_dec_rep;
use crate::text::parse_u16;
use crate::text::parse_u16_spec;
use crate::text::trim;
use crate::text::trim_spec;
use crate::text::u16_to_dec;

verus! {

/// What a reader found at one reading file of a device directory.
#[derive(Debug, PartialEq, Eq)]
pub enum FileReading {
    /// The file is absent or not a regular file.
    Missing,
    /// The file exists but reading it failed; holds the failure's description.
    Unreadable(String),
    /// The file's full text.
    Content(String),
}

/// `FileReading` with its texts as character sequences.
pub enum FileReadingModel {
    Missing,
    Unreadable(Seq<char>),
    Content(Seq<char>),
}

impl View for FileReading {
    type V = FileReadingModel;

    open spec fn view(&self) -> FileReadingModel {
        match self {
            FileReading::Missing => FileReadingModel::Missing,
            FileReading::Unreadable(m) => FileReadingModel::Unreadable(m@),
            FileReading::Content(c) => FileReadingModel::Content(c@),
        }
    }
}

/// Everything the backing store shows of one device directory: whether the
/// path is a directory, and what each of the three reading files holds.
#[derive(Debug, PartialEq, Eq)]
pub struct DeviceSnapshot {
    pub is_dir: bool,
    pub actual_brightness: FileReading,
    pub brightness: FileReading,
    pub max_brightness: FileReading,
}

/// `DeviceSnapshot` at the spec level.
pub struct DeviceSnapshotModel {
    pub is_dir: bool,
    pub actual_brightness: FileReadingModel,
    pub brightness: FileReadingModel,
    pub max_brightness: FileReadingModel,
}

impl View for DeviceSnapshot {
    type V = DeviceSnapshotModel;

    open spec fn view(&self) -> DeviceSnapshotModel {
        DeviceSnapshotModel {
            is_dir: self.is_dir,
            actual_brightness: self.actual_brightness@,
            brightness: self.brightness@,
            max_brightness: self.max_brightness@,
        }
    }
}

/// One device's readings and the path they came from.
#[derive(Debug)]
pub struct Status {
    actual_brightness: u16,
    brightness: u16,
    max_brightness: u16,
    device_path: String,
}

/// `Status` at the spec level.
pub struct StatusModel {
    pub actual_brightness: u16,
    pub brightness: u16,
    pub max_brightness: u16,
    pub device_path: Seq<char>,
}

impl View for Status {
    type V = StatusModel;

    closed spec fn view(&self) -> StatusModel {
        StatusModel {
            actual_brightness: self.actual_brightness,
            brightness: self.brightness,
            max_brightness: self.max_brightness,
            device_path: self.device_path@,
        }
    }
}

/// How `Path::join` appends a file name to a directory path.
pub open spec fn join_path_spec(dir: Seq<char>, name: Seq<char>) -> Seq<char> {
    if dir.len() == 0 {
        name
    } else if dir.last() == '/' {
        dir + name
    } else {
        dir + "/"@ + name
    }
}

/// Appends a file name to a directory path, inserting a separator unless the
/// path already ends in one.
pub fn join_path(dir: &str, name: &str) -> (r: String)
    ensures
        r@ == join_path_spec(dir@, name@),
{
    let len = dir.unicode_len();
    if len == 0 {
        return name.to_owned();
    }
    let last = dir.get_char(len - 1);
    let mut s = dir.to_owned();
    if last != '/' {
        s.append("/");
    }
    s.append(name);
    s
}

/// What loading one reading file yields: its parsed value, or the error that
/// the file's state forces.
pub open spec fn reading_spec(dir: Seq<char>, name: Seq<char>, f: FileReadingModel) -> Result<
    u16,
    ErrorModel,
> {
    match f {
        FileReadingModel::Missing => Err(ErrorModel::MissingReadingFile(join_path_spec(dir, name))),
        FileReadingModel::Unreadable(m) => Err(ErrorModel::IOFailure(m)),
        FileReadingModel::Content(c) => match parse_u16_spec(trim_spec(c)) {
            Some(v) => Ok(v),
            None => Err(ErrorModel::MalformedReading(c)),
        },
    }
}

/// What loading a whole device directory yields. The directory must exist;
/// then the three readings are taken in a fixed order — actual brightness,
/// brightness, maximum brightness — and the first failure aborts the load.
pub open spec fn load_spec(dir: Seq<char>, snap: DeviceSnapshotModel) -> Result<
    StatusModel,
    ErrorModel,
> {
    if !snap.is_dir {
        Err(ErrorModel::InvalidDevicePath(dir))
    } else {
        match reading_spec(dir, "actual_brightness"@, snap.actual_brightness) {
            Err(e) => Err(e),
            Ok(a) => match reading_spec(dir, "brightness"@, snap.brightness) {
                Err(e) => Err(e),
                Ok(b) => match reading_spec(dir, "max_brightness"@, snap.max_brightness) {
                    Err(e) => Err(e),
                    Ok(m) => Ok(
                        StatusModel {
                            actual_brightness: a,
                            brightness: b,
                            max_brightness: m,
                            device_path: dir,
                        },
                    ),
                },
            },
        }
    }
}

/// What a validated mutation does to the readings and returns: the new state
/// first, the outcome second.
pub open spec fn set_brightness_spec(st: StatusModel, input: Seq<char>) -> (StatusModel, Result<
    (),
    ErrorModel,
>) {
    match parse_u16_spec(trim_spec(input)) {
        None => (st, Err(ErrorModel::MalformedInput(input))),
        Some(v) => if v > st.max_brightness {
            (st, Err(ErrorModel::OutOfRange(v, st.max_brightness)))
        } else {
            (
                StatusModel {
                    actual_brightness: st.actual_brightness,
                    brightness: v,
                    max_brightness: st.max_brightness,
                    device_path: st.device_path,
                },
                Ok(()),
            )
        },
    }
}

/// Where the target brightness is persisted: the `brightness` file under the
/// device path.
pub open spec fn brightness_path_spec(st: StatusModel) -> Seq<char> {
    join_path_spec(st.device_path, "brightness"@)
}

/// The text that persisting writes: the decimal rendering of the target
/// brightness, nothing else.
pub open spec fn saved_content_spec(st: StatusModel) -> Seq<char> {
    dec_rep(st.brightness as nat)
}

/// The fixed-order, human-readable summary of one device's readings.
pub open spec fn report_spec(st: StatusModel) -> Seq<char> {
    "Sysfs path: "@ + st.device_path + "\nActual brightness: "@ + dec_rep(
        st.actual_brightness as nat,
    ) + "\nBrightness: "@ + dec_rep(st.brightness as nat) + "\nMax brightness: "@ + dec_rep(
        st.max_brightness as nat,
    )
}

/// `Result<u16, Error>` seen through the errors' views.
pub open spec fn u16_result_model(r: Result<u16, Error>) -> Result<u16, ErrorModel> {
    match r {
        Ok(v) => Ok(v),
        Err(e) => Err(e@),
    }
}

/// `Result<Status, Error>` seen through both views.
pub open spec fn status_result_model(r: Result<Status, Error>) -> Result<StatusModel, ErrorModel> {
    match r {
        Ok(st) => Ok(st@),
        Err(e) => Err(e@),
    }
}

/// `Result<(), Error>` seen through the errors' views.
pub open spec fn unit_result_model(r: Result<(), Error>) -> Result<(), ErrorModel> {
    match r {
        Ok(u) => Ok(u),
        Err(e) => Err(e@),
    }
}

/// A reading file whose content parses, after trimming, as an unsigned
/// 16-bit integer.
pub open spec fn well_formed_reading(f: FileReadingModel) -> bool {
    f matches FileReadingModel::Content(c) && parse_u16_spec(trim_spec(c)) is Some
}

/// The value such a reading holds.
pub open spec fn reading_value(f: FileReadingModel) -> u16
    recommends
        well_formed_reading(f),
{
    parse_u16_spec(trim_spec(f->Content_0)).unwrap()
}

/// Loading a directory whose three reading files are well formed succeeds,
/// and the three readings equal the parsed file contents exactly.
pub proof fn lemma_load_well_formed(dir: Seq<char>, snap: DeviceSnapshotModel)
    requires
        snap.is_dir,
        well_formed_reading(snap.actual_brightness),
        well_formed_reading(snap.brightness),
        well_formed_reading(snap.max_brightness),
    ensures
        load_spec(dir, snap) == Ok::<StatusModel, ErrorModel>(
            StatusModel {
                actual_brightness: reading_value(snap.actual_brightness),
                brightness: reading_value(snap.brightness),
                max_brightness: reading_value(snap.max_brightness),
                device_path: dir,
            },
        ),
{
}

/// A directory missing one of its three reading files, the others well
/// formed, fails to load with `MissingReadingFile` naming the missing file —
/// the first missing one in the fixed reading order.
pub proof fn lemma_load_missing_file(dir: Seq<char>, snap: DeviceSnapshotModel)
    requires
        snap.is_dir,
        snap.actual_brightness is Missing || well_formed_reading(snap.actual_brightness),
        snap.brightness is Missing || well_formed_reading(snap.brightness),
        snap.max_brightness is Missing || well_formed_reading(snap.max_brightness),
        snap.actual_brightness is Missing || snap.brightness is Missing
            || snap.max_brightness is Missing,
    ensures
        load_spec(dir, snap) == Err::<StatusModel, ErrorModel>(
            ErrorModel::MissingReadingFile(
                join_path_spec(
                    dir,
                    if snap.actual_brightness is Missing {
                        "actual_brightness"@
                    } else if snap.brightness is Missing {
                        "brightness"@
                    } else {
                        "max_brightness"@
                    },
                ),
            ),
        ),
{
}

/// A path that is no directory fails to load with `InvalidDevicePath`,
/// whatever the three readings look like.
pub proof fn lemma_load_not_directory(dir: Seq<char>, snap: DeviceSnapshotModel)
    requires
        !snap.is_dir,
    ensures
        load_spec(dir, snap) == Err::<StatusModel, ErrorModel>(ErrorModel::InvalidDevicePath(dir)),
{
}

/// Round trip: after a successful validated mutation, persisting the
/// readings and loading the directory afresh yields the brightness that was
/// set.
pub proof fn lemma_set_save_reload(
    st: StatusModel,
    input: Seq<char>,
    dir: Seq<char>,
    snap: DeviceSnapshotModel,
)
    requires
        set_brightness_spec(st, input).1 is Ok,
        snap.is_dir,
        snap.brightness == FileReadingModel::Content(
            saved_content_spec(set_brightness_spec(st, input).0),
        ),
        well_formed_reading(snap.actual_brightness),
        well_formed_reading(snap.max_brightness),
    ensures
        load_spec(dir, snap) matches Ok(reloaded) && reloaded.brightness == set_brightness_spec(
            st,
            input,
        ).0.brightness,
{
    let v = set_brightness_spec(st, input).0.brightness;
    lemma_parse_dec_rep(v);
}

/// Persisting twice with no mutation in between writes the same text both
/// times: the saved content is a function of the stored brightness alone.
pub proof fn lemma_save_idempotent(st: StatusModel, first: Seq<char>, second: Seq<char>)
    requires
        first == saved_content_spec(st),
        second == saved_content_spec(st),
    ensures
        first == second,
{
}

fn read_value(dir: &str, name: &str, f: &FileReading) -> (r: Result<u16, Error>)
    ensures
        u16_result_model(r) == reading_spec(dir@, name@, f@),
{
    match f {
        FileReading::Missing => Err(Error::MissingReadingFile(join_path(dir, name))),
        FileReading::Unreadable(m) => Err(Error::IOFailure(m.clone())),
        FileReading::Content(c) => {
            let t = trim(c.as_str());
            match parse_u16(t) {
                Some(v) => Ok(v),
                None => Err(Error::MalformedReading(c.clone())),
            }
        },
    }
}

impl Status {
    /// The hardware-reported brightness, as loaded.
    pub fn actual_brightness(&self) -> (r: u16)
        ensures
            r == self@.actual_brightness,
    {
        self.actual_brightness
    }

    /// The driver-stored target brightness.
    pub fn brightness(&self) -> (r: u16)
        ensures
            r == self@.brightness,
    {
        self.brightness
    }

    /// The device's maximum brightness, as loaded.
    pub fn max_brightness(&self) -> (r: u16)
        ensures
            r == self@.max_brightness,
    {
        self.max_brightness
    }

    /// The directory the readings came from.
    pub fn device_path(&self) -> (r: &str)
        ensures
            r@ == self@.device_path,
    {
        self.device_path.as_str()
    }

    /// Loads a device's readings from a snapshot of its directory. Fails with
    /// `InvalidDevicePath` when the path is no directory, with
    /// `MissingReadingFile` when a reading file is absent, with `IOFailure`
    /// when one could not be read, and with `MalformedReading` when one does
    /// not hold an unsigned 16-bit integer; the first failing reading, in the
    /// fixed order of `load_spec`, decides.
    pub fn get(device_path: &str, snapshot: &DeviceSnapshot) -> (r: Result<Status, Error>)
        ensures
            status_result_model(r) == load_spec(device_path@, snapshot@),
    {
        if !snapshot.is_dir {
            return Err(Error::InvalidDevicePath(device_path.to_owned()));
        }
        let actual_brightness = match read_value(
            device_path,
            "actual_brightness",
            &snapshot.actual_brightness,
        ) {
            Ok(v) => v,
            Err(e) => return Err(e),
        };
        let brightness = match read_value(device_path, "brightness", &snapshot.brightness) {
            Ok(v) => v,
            Err(e) => return Err(e),
        };
        let max_brightness = match read_value(
            device_path,
            "max_brightness",
            &snapshot.max_brightness,
        ) {
            Ok(v) => v,
            Err(e) => return Err(e),
        };
        Ok(
            Status {
                actual_brightness,
                brightness,
                max_brightness,
                device_path: device_path.to_owned(),
            },
        )
    }

    /// Validates and applies a new target brightness. On unparsable text it
    /// fails with `MalformedInput`; on a value above the maximum it fails
    /// with `OutOfRange`; either way the readings stay as they were. On
    /// success only the target brightness changes, to the parsed value.
    pub fn set_brightness(&mut self, input: &str) -> (r: Result<(), Error>)
        ensures
            final(self)@ == set_brightness_spec(old(self)@, input@).0,
            unit_result_model(r) == set_brightness_spec(old(self)@, input@).1,
            r is Ok ==> final(self)@.brightness <= final(self)@.max_brightness,
    {
        let t = trim(input);
        match parse_u16(t) {
            None => Err(Error::MalformedInput(input.to_owned())),
            Some(v) => {
                if v > self.max_brightness {
                    Err(Error::OutOfRange(v, self.max_brightness))
                } else {
                    self.brightness = v;
                    Ok(())
                }
            },
        }
    }

    /// The path that persisting writes to.
    pub fn brightness_file_path(&self) -> (r: String)
        ensures
            r@ == brightness_path_spec(self@),
    {
        join_path(self.device_path.as_str(), "brightness")
    }

    /// The exact text that persisting writes.
    pub fn brightness_file_content(&self) -> (r: String)
        ensures
            r@ == saved_content_spec(self@),
    {
        u16_to_dec(self.brightness)
    }

    /// The multi-line summary of path, actual brightness, brightness and
    /// maximum brightness, in that fixed order.
    pub fn report(&self) -> (r: String)
        ensures
            r@ == report_spec(self@),
    {
        let mut s = String::from_str("Sysfs path: ");
        s.append(self.device_path.as_str());
        s.append("\nActual brightness: ");
        let a = u16_to_dec(self.actual_brightness);
        s.append(a.as_str());
        s.append("\nBrightness: ");
        let b = u16_to_dec(self.brightness);
        s.append(b.as_str());
        s.append("\nMax brightness: ");
        let m = u16_to_dec(self.max_brightness);
        s.append(m.as_str());
        s
    }
}

} // verus!
