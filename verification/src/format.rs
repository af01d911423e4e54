//! Coded and raw video formats, and their numbering on the wire.

use vstd::prelude::*;
use vstd::string::*;

verus! {

/// Wire number of the VP8 profile.
pub const VP8PROFILE_MIN: i32 = 11;

/// Wire number of VP9 profile 0.
pub const VP9PROFILE_PROFILE0: i32 = 12;

/// Wire number of the H.264 main profile.
pub const H264PROFILE_MAIN: i32 = 1;

/// Wire number of the YV12 pixel format.
pub const PIXEL_FORMAT_YV12: u32 = 0;

/// Wire number of the NV12 pixel format.
pub const PIXEL_FORMAT_NV12: u32 = 1;

/// Why a set of formats was turned down.
#[derive(Debug, PartialEq, Eq)]
pub enum FormatError {
    /// The capabilities themselves are malformed.
    InvalidCapabilities(String),
    /// No pixel format has this number.
    UnknownPixelFormat(u32),
    /// No profile has this number.
    UnknownProfile(i32),
}

/// Mathematical value of a [`FormatError`].
pub enum FormatErrorView {
    InvalidCapabilities(Seq<char>),
    UnknownPixelFormat(u32),
    UnknownProfile(i32),
}

impl View for FormatError {
    type V = FormatErrorView;

    open spec fn view(&self) -> FormatErrorView {
        match self {
            FormatError::InvalidCapabilities(why) => FormatErrorView::InvalidCapabilities(why@),
            FormatError::UnknownPixelFormat(raw) => FormatErrorView::UnknownPixelFormat(*raw),
            FormatError::UnknownProfile(raw) => FormatErrorView::UnknownProfile(*raw),
        }
    }
}

/// A plane of a video frame, as the wire carries it.
#[derive(Clone, Copy, Debug, PartialEq, Eq, Structural)]
pub struct RawFramePlane {
    pub offset: i32,
    pub stride: i32,
}

/// Represents a video frame plane.
#[derive(Clone, Copy, Debug, PartialEq, Eq, Structural)]
pub struct FramePlane {
    pub offset: i32,
    pub stride: i32,
}

impl FramePlane {
    /// The plane as the wire carries it.
    pub fn to_raw_frame_plane(&self) -> (raw: RawFramePlane)
        ensures
            raw == (RawFramePlane { offset: self.offset, stride: self.stride }),
    {
        RawFramePlane { offset: self.offset, stride: self.stride }
    }
}

/// Represents a video codec.
#[derive(Clone, Copy, Debug, PartialEq, Eq, Structural)]
pub enum Profile {
    VP8,
    VP9Profile0,
    H264,
}

/// The wire number of `profile`.
pub open spec fn raw_profile(profile: Profile) -> i32 {
    match profile {
        Profile::VP8 => VP8PROFILE_MIN,
        Profile::VP9Profile0 => VP9PROFILE_PROFILE0,
        Profile::H264 => H264PROFILE_MAIN,
    }
}

/// The profile numbered `raw`, if there is one.
pub open spec fn profile_numbered(raw: i32) -> Option<Profile> {
    if raw == VP8PROFILE_MIN {
        Some(Profile::VP8)
    } else if raw == VP9PROFILE_PROFILE0 {
        Some(Profile::VP9Profile0)
    } else if raw == H264PROFILE_MAIN {
        Some(Profile::H264)
    } else {
        None
    }
}

impl Profile {
    /// The profile numbered `p`; a number that names no profile is turned
    /// down with [`FormatError::UnknownProfile`].
    pub fn new(p: i32) -> (profile: Result<Profile, FormatError>)
        ensures
            match profile_numbered(p) {
                Some(known) => profile == Ok::<Profile, FormatError>(known),
                None => profile == Err::<Profile, FormatError>(FormatError::UnknownProfile(p)),
            },
    {
        if p == VP8PROFILE_MIN {
            Ok(Profile::VP8)
        } else if p == VP9PROFILE_PROFILE0 {
            Ok(Profile::VP9Profile0)
        } else if p == H264PROFILE_MAIN {
            Ok(Profile::H264)
        } else {
            Err(FormatError::UnknownProfile(p))
        }
    }

    /// The wire number of the profile. [`Profile::new`] gives the profile
    /// back for it.
    pub fn to_raw_profile(self) -> (raw: i32)
        ensures
            raw == raw_profile(self),
            profile_numbered(raw) == Some(self),
    {
        match self {
            Profile::VP8 => VP8PROFILE_MIN,
            Profile::VP9Profile0 => VP9PROFILE_PROFILE0,
            Profile::H264 => H264PROFILE_MAIN,
        }
    }
}

/// Represents a raw pixel format.
#[derive(Clone, Copy, Debug, PartialEq, Eq, Structural)]
pub enum PixelFormat {
    YV12,
    NV12,
}

/// The wire number of `format`.
pub open spec fn raw_pixel_format(format: PixelFormat) -> u32 {
    match format {
        PixelFormat::YV12 => PIXEL_FORMAT_YV12,
        PixelFormat::NV12 => PIXEL_FORMAT_NV12,
    }
}

/// The pixel format numbered `raw`, if there is one.
pub open spec fn pixel_format_numbered(raw: u32) -> Option<PixelFormat> {
    if raw == PIXEL_FORMAT_YV12 {
        Some(PixelFormat::YV12)
    } else if raw == PIXEL_FORMAT_NV12 {
        Some(PixelFormat::NV12)
    } else {
        None
    }
}

/// The first position of `raw` whose number names no pixel format, or the
/// length of `raw` where every number names one.
pub open spec fn first_unknown_pixel_format(raw: Seq<u32>) -> int
    decreases raw.len(),
{
    if raw.len() == 0 {
        0
    } else if pixel_format_numbered(raw[0]) is None {
        0
    } else {
        1 + first_unknown_pixel_format(raw.skip(1))
    }
}

impl PixelFormat {
    /// The pixel format numbered `f`; a number that names no format is
    /// turned down with [`FormatError::UnknownPixelFormat`].
    pub fn new(f: u32) -> (format: Result<PixelFormat, FormatError>)
        ensures
            match pixel_format_numbered(f) {
                Some(known) => format == Ok::<PixelFormat, FormatError>(known),
                None => format == Err::<PixelFormat, FormatError>(FormatError::UnknownPixelFormat(f)),
            },
    {
        if f == PIXEL_FORMAT_YV12 {
            Ok(PixelFormat::YV12)
        } else if f == PIXEL_FORMAT_NV12 {
            Ok(PixelFormat::NV12)
        } else {
            Err(FormatError::UnknownPixelFormat(f))
        }
    }

    /// The wire number of the format. [`PixelFormat::new`] gives the format
    /// back for it.
    pub fn to_raw_pixel_format(&self) -> (raw: u32)
        ensures
            raw == raw_pixel_format(*self),
            pixel_format_numbered(raw) == Some(*self),
    {
        match *self {
            PixelFormat::YV12 => PIXEL_FORMAT_YV12,
            PixelFormat::NV12 => PIXEL_FORMAT_NV12,
        }
    }

    /// The pixel formats that `data` numbers, in order. An empty `data` is
    /// turned down, and so is the first number that names no format.
    pub fn from_raw_parts(data: &[u32]) -> (formats: Result<Vec<PixelFormat>, FormatError>)
        ensures
            data.len() == 0 ==> formats is Err && formats->Err_0@ == FormatErrorView::InvalidCapabilities(
                "num must not be 0"@,
            ),
            data.len() > 0 && first_unknown_pixel_format(data@) == data.len() ==> formats is Ok
                && formats->Ok_0.len() == data.len() && forall|i: int|
                0 <= i < data.len() ==> pixel_format_numbered(data[i]) == Some(#[trigger] formats->Ok_0[i]),
            data.len() > 0 && first_unknown_pixel_format(data@) != data.len() ==> formats == Err::<
                Vec<PixelFormat>,
                FormatError,
            >(FormatError::UnknownPixelFormat(data[first_unknown_pixel_format(data@)])),
    {
        let convert = |f: &u32| -> (format: Result<PixelFormat, FormatError>)
            ensures
                match pixel_format_numbered(*f) {
                    Some(known) => format == Ok::<PixelFormat, FormatError>(known),
                    None => format == Err::<PixelFormat, FormatError>(
                        FormatError::UnknownPixelFormat(*f),
                    ),
                },
            { PixelFormat::new(*f) };
        let formats = validate_formats(data, convert);
        proof {
            if data.len() > 0 {
                match &formats {
                    Ok(all) => {
                        assert forall|j: int| 0 <= j < data.len() implies pixel_format_numbered(
                            #[trigger] data@[j],
                        ) == Some(all[j]) by {
                            assert(call_ensures(convert, (&data[j],), Ok::<PixelFormat, FormatError>(all[j])));
                        }
                        lemma_first_unknown(data@, data.len() as int);
                    },
                    Err(e) => {
                        let (k, converted) = choose|k: int, converted: Seq<PixelFormat>|
                            {
                                &&& 0 <= k < data.len()
                                &&& converted.len() == k
                                &&& call_ensures(convert, (&data[k],), Err::<PixelFormat, FormatError>(*e))
                                &&& forall|j: int|
                                    0 <= j < k ==> call_ensures(
                                        convert,
                                        (&data[j],),
                                        Ok::<PixelFormat, FormatError>(#[trigger] converted[j]),
                                    )
                            };
                        assert forall|j: int| 0 <= j < k implies pixel_format_numbered(
                            #[trigger] data@[j],
                        ) is Some by {
                            assert(call_ensures(
                                convert,
                                (&data[j],),
                                Ok::<PixelFormat, FormatError>(converted[j]),
                            ));
                        }
                        lemma_first_unknown(data@, k);
                    },
                }
            }
        }
        formats
    }
}

/// The first unknown position is the one before which every number names
/// a format and which itself names none.
proof fn lemma_first_unknown(raw: Seq<u32>, k: int)
    requires
        0 <= k <= raw.len(),
        forall|j: int| 0 <= j < k ==> pixel_format_numbered(#[trigger] raw[j]) is Some,
        k < raw.len() ==> pixel_format_numbered(raw[k]) is None,
    ensures
        first_unknown_pixel_format(raw) == k,
    decreases raw.len(),
{
    if raw.len() > 0 && k > 0 {
        let rest = raw.skip(1);
        assert forall|j: int| 0 <= j < k - 1 implies pixel_format_numbered(#[trigger] rest[j]) is Some by {
            assert(rest[j] == raw[j + 1]);
        }
        lemma_first_unknown(rest, k - 1);
    }
}

/// Converts every element of `raw` with `f`, in order, and stops at the
/// first element that `f` turns down. An empty `raw` is itself turned down.
pub fn validate_formats<T, U, F>(raw: &[T], f: F) -> (formats: Result<Vec<U>, FormatError>) where
    F: Fn(&T) -> Result<U, FormatError>,

    requires
        forall|i: int| 0 <= i < raw.len() ==> call_requires(f, (&#[trigger] raw[i],)),
    ensures
        raw.len() == 0 ==> formats is Err && formats->Err_0@ == FormatErrorView::InvalidCapabilities(
            "num must not be 0"@,
        ),
        raw.len() > 0 ==> match formats {
            Ok(all) => all.len() == raw.len() && forall|i: int|
                0 <= i < raw.len() ==> call_ensures(f, (&raw[i],), Ok::<U, FormatError>(#[trigger] all[i])),
            Err(e) => exists|k: int, converted: Seq<U>|
                {
                    &&& 0 <= k < raw.len()
                    &&& converted.len() == k
                    &&& call_ensures(f, (&raw[k],), Err::<U, FormatError>(e))
                    &&& forall|j: int|
                        0 <= j < k ==> call_ensures(
                            f,
                            (&raw[j],),
                            Ok::<U, FormatError>(#[trigger] converted[j]),
                        )
                },
        },
{
    if raw.len() == 0 {
        return Err(FormatError::InvalidCapabilities("num must not be 0".to_owned()));
    }
    let mut all: Vec<U> = Vec::new();
    let mut i: usize = 0;
    while i < raw.len()
        invariant
            i <= raw.len(),
            all.len() == i,
            forall|j: int| 0 <= j < raw.len() ==> call_requires(f, (&#[trigger] raw[j],)),
            forall|j: int| 0 <= j < i ==> call_ensures(f, (&raw[j],), Ok::<U, FormatError>(#[trigger] all[j])),
        decreases raw.len() - i,
    {
        match f(&raw[i]) {
            Ok(format) => {
                all.push(format);
            },
            Err(e) => {
                return Err(e);
            },
        }
        i = i + 1;
    }
    Ok(all)
}

} // verus!
