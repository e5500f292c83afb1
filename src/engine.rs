use vstd::prelude::*;
use vstd::string::*;

use crate::compose::{blend_layer, decode_raster, decodes, snapshot_layer, Raster};
use crate::error::RainError;
use crate::image_meta::{valid_stamp, ImageMeta, GIF_DIR};
use crate::window::{resolve_window, window_slot, WINDOW_LEN};

verus! {

/// Fewer frames than this make no animation.
pub const MIN_FRAMES: usize = 4;
/// Display time of each frame, in milliseconds.
pub const FRAME_DELAY_MS: u32 = 10;

/// The views of a list of pixel buffers.
pub open spec fn buffer_views(frames: Seq<Vec<u8>>) -> Seq<Seq<u8>> {
    frames.map_values(|f: Vec<u8>| f@)
}

/// The animated GIF that the encoder writes for `frames`, each `width` by
/// `height` RGBA pixels shown for `delay_ms`, if it writes one.
pub uninterp spec fn encoded_gif(
    frames: Seq<Seq<u8>>,
    width: int,
    height: int,
    delay_ms: int,
) -> Option<Seq<u8>>;

/// Relies on image's `GifEncoder::encode_frames`, writing into memory: the
/// bytes depend on the frames, their size and their delay alone.
#[verifier::external_body]
fn encode_gif(frames: &Vec<Vec<u8>>, width: u32, height: u32, delay_ms: u32) -> (r: Option<
    Vec<u8>,
>)
    requires
        forall|i: int|
            0 <= i < frames@.len() ==> (#[trigger] frames@[i])@.len() == width as int
                * height as int * 4,
    ensures
        match r {
            Some(b) => encoded_gif(
                buffer_views(frames@),
                width as int,
                height as int,
                delay_ms as int,
            ) == Some(b@),
            None => encoded_gif(buffer_views(frames@), width as int, height as int, delay_ms as int)
                == None::<Seq<u8>>,
        },
{
    let mut list = Vec::new();
    for f in frames.iter() {
        let buf = image::RgbaImage::from_raw(width, height, f.clone()).expect("sized buffer");
        list.push(image::Frame::from_parts(buf, 0, 0, image::Delay::from_numer_denom_ms(delay_ms, 1)));
    }
    let mut out: Vec<u8> = Vec::new();
    let done = image::codecs::gif::GifEncoder::new(&mut out).encode_frames(list);
    match done {
        Ok(()) => Some(out),
        Err(_) => None,
    }
}

/// The name of the animation of `frames`, oldest first:
/// `<oldest>_<newest>.gif`.
pub open spec fn gif_name_of(frames: Seq<ImageMeta>) -> Seq<char> {
    frames[0].spec_image_name() + "_"@ + frames.last().spec_image_name() + ".gif"@
}

/// Where the animation named `name` is written.
pub open spec fn gif_path_of(name: Seq<char>) -> Seq<char> {
    GIF_DIR@ + "/"@ + name
}

/// Two runs whose frames, oldest first, begin and end at the same slots
/// give their animations the same name and the same path.
pub proof fn lemma_naming_deterministic(a: Seq<ImageMeta>, b: Seq<ImageMeta>)
    requires
        a.len() > 0,
        b.len() > 0,
        a[0] == b[0],
        a.last() == b.last(),
    ensures
        gif_name_of(a) == gif_name_of(b),
        gif_path_of(gif_name_of(a)) == gif_path_of(gif_name_of(b)),
{
}

/// The finished animation: its name, where it goes, and its bytes.
pub struct Artifact {
    pub name: String,
    pub path: String,
    pub bytes: Vec<u8>,
}

/// The frames of one request as it runs through its window of slots.
pub struct Gathering {
    /// The candidate slots, newest first.
    pub window: Vec<i64>,
    /// How many candidates have been handed out.
    pub next: usize,
    /// The descriptors whose snapshots are available, newest first.
    pub frames: Vec<ImageMeta>,
}

impl Gathering {
    pub open spec fn wf(&self) -> bool {
        &&& self.window@.len() == WINDOW_LEN
        &&& self.next <= WINDOW_LEN
        &&& forall|i: int| 0 <= i < self.frames@.len() ==> (#[trigger] self.frames@[i]).wf()
    }

    /// The window of the instant `now_secs`, with no candidate tried yet.
    pub fn start(now_secs: i64) -> (r: Gathering)
        ensures
            r.wf(),
            r.next == 0,
            r.frames@.len() == 0,
            forall|i: int| 0 <= i < WINDOW_LEN ==> r.window@[i] == window_slot(now_secs as int, i),
    {
        Gathering { window: resolve_window(now_secs), next: 0, frames: Vec::new() }
    }

    /// The next candidate, newest first: `None` once the window is spent,
    /// and the descriptor error for a slot that makes no descriptor.
    pub fn next_candidate(&mut self) -> (r: Option<Result<ImageMeta, RainError>>)
        requires
            old(self).wf(),
        ensures
            final(self).wf(),
            final(self).window == old(self).window,
            final(self).frames == old(self).frames,
            old(self).next == WINDOW_LEN ==> r is None && final(self).next == old(self).next,
            old(self).next < WINDOW_LEN ==> {
                let m = old(self).window@[old(self).next as int];
                &&& final(self).next == old(self).next + 1
                &&& valid_stamp(m as int) ==> r == Some(
                    Ok::<ImageMeta, RainError>(ImageMeta { minutes: m }),
                )
                &&& !valid_stamp(m as int) ==> r == Some(
                    Err::<ImageMeta, RainError>(RainError::DescriptorParse),
                )
            },
    {
        if self.next < WINDOW_LEN {
            let m = self.window[self.next];
            self.next = self.next + 1;
            Some(ImageMeta::build_from_datetime(m))
        } else {
            None
        }
    }

    /// Keeps `meta` as a frame when its snapshot is available locally.
    pub fn record(&mut self, meta: ImageMeta, acquired: bool)
        requires
            old(self).wf(),
            meta.wf(),
        ensures
            final(self).wf(),
            final(self).window == old(self).window,
            final(self).next == old(self).next,
            acquired ==> final(self).frames@ == old(self).frames@.push(meta),
            !acquired ==> final(self).frames@ == old(self).frames@,
    {
        if acquired {
            self.frames.push(meta);
        }
    }

    /// The frames, newest first, when there are enough for an animation.
    pub fn finish(self) -> (r: Result<Vec<ImageMeta>, RainError>)
        requires
            self.wf(),
        ensures
            self.frames@.len() < MIN_FRAMES ==> r == Err::<Vec<ImageMeta>, RainError>(
                RainError::InsufficientFrames { found: self.frames@.len() as usize },
            ),
            self.frames@.len() >= MIN_FRAMES ==> (r matches Ok(v) && v@ == self.frames@),
    {
        let found = self.frames.len();
        if found < MIN_FRAMES {
            Err(RainError::InsufficientFrames { found })
        } else {
            Ok(self.frames)
        }
    }
}

/// The layers of an animation made from `base` and the snapshot files
/// `snapshots` (newest first), in the order they are shown: oldest first.
pub open spec fn chronological_layers(base: Raster, snapshots: Seq<Vec<u8>>) -> Seq<Seq<u8>> {
    Seq::new(
        snapshots.len(),
        |i: int| snapshot_layer(base, snapshots[snapshots.len() - 1 - i]@),
    )
}

/// What the pipeline holds across requests: the base map, read-only.
pub struct Engine {
    pub base: Raster,
}

impl Engine {
    pub open spec fn wf(&self) -> bool {
        self.base.wf()
    }

    /// An engine over the base map decoded from `base_bytes`.
    pub fn init(base_bytes: &Vec<u8>) -> (r: Result<Engine, RainError>)
        ensures
            r is Ok <==> decodes(base_bytes@),
            !decodes(base_bytes@) ==> r == Err::<Engine, RainError>(RainError::Decode),
            r matches Ok(e) ==> e.wf() && Some(
                (e.base.width as int, e.base.height as int, e.base.pixels@),
            ) == crate::compose::decoded_rgba(base_bytes@),
    {
        match decode_raster(base_bytes) {
            Ok(base) => Ok(Engine { base }),
            Err(e) => Err(e),
        }
    }

    /// The layer of one snapshot file over the base map.
    pub fn compose_frame(&self, snapshot: &Vec<u8>) -> (r: Result<Vec<u8>, RainError>)
        requires
            self.wf(),
        ensures
            decodes(snapshot@) ==> (r matches Ok(l) && l@ == snapshot_layer(self.base, snapshot@)),
            !decodes(snapshot@) ==> r == Err::<Vec<u8>, RainError>(RainError::Decode),
    {
        match decode_raster(snapshot) {
            Ok(overlay) => {
                let layer = blend_layer(&self.base, &overlay);
                Ok(layer.pixels)
            },
            Err(e) => Err(e),
        }
    }

    /// The animation's name for `image_infos`, oldest first.
    pub fn gif_name(&self, image_infos: &Vec<ImageMeta>) -> (r: String)
        requires
            image_infos@.len() > 0,
            forall|i: int| 0 <= i < image_infos@.len() ==> (#[trigger] image_infos@[i]).wf(),
        ensures
            r@ == gif_name_of(image_infos@),
    {
        let first = image_infos[0].image_name();
        let last = image_infos[image_infos.len() - 1].image_name();
        let mut name = String::from_str(first.as_str());
        name.append("_");
        name.append(last.as_str());
        name.append(".gif");
        name
    }

    /// Where the animation named `gif_name` is written.
    pub fn gif_path(&self, gif_name: &str) -> (r: String)
        ensures
            r@ == gif_path_of(gif_name@),
    {
        let mut path = String::from_str(GIF_DIR);
        path.append("/");
        path.append(gif_name);
        path
    }

    /// The animation of the frames `image_infos` (newest first) whose
    /// snapshot files are `snapshots`: every snapshot is laid over the base
    /// map, and the layers are encoded oldest first under the name of the
    /// oldest and the newest frame.
    pub fn create_gif(&self, image_infos: Vec<ImageMeta>, snapshots: &Vec<Vec<u8>>) -> (r: Result<
        Artifact,
        RainError,
    >)
        requires
            self.wf(),
            image_infos@.len() == snapshots@.len(),
            forall|i: int| 0 <= i < image_infos@.len() ==> (#[trigger] image_infos@[i]).wf(),
        ensures
            image_infos@.len() < MIN_FRAMES ==> r == Err::<Artifact, RainError>(
                RainError::InsufficientFrames { found: image_infos@.len() as usize },
            ),
            image_infos@.len() >= MIN_FRAMES && !(forall|i: int|
                0 <= i < snapshots@.len() ==> decodes(#[trigger] snapshots@[i]@))
                ==> r == Err::<Artifact, RainError>(RainError::Decode),
            image_infos@.len() >= MIN_FRAMES && (forall|i: int|
                0 <= i < snapshots@.len() ==> decodes(#[trigger] snapshots@[i]@)) ==> match encoded_gif(
                chronological_layers(self.base, snapshots@),
                self.base.width as int,
                self.base.height as int,
                FRAME_DELAY_MS as int,
            ) {
                Some(b) => (r matches Ok(a) && a.bytes@ == b && a.name@ == gif_name_of(
                    image_infos@.reverse(),
                ) && a.path@ == gif_path_of(a.name@)),
                None => r == Err::<Artifact, RainError>(RainError::Encode),
            },
    {
        let n = image_infos.len();
        if n < MIN_FRAMES {
            return Err(RainError::InsufficientFrames { found: n });
        }
        let mut layers: Vec<Vec<u8>> = Vec::new();
        let mut ordered: Vec<ImageMeta> = Vec::new();
        let mut i: usize = 0;
        while i < n
            invariant
                i <= n,
                n >= MIN_FRAMES,
                n == image_infos@.len(),
                n == snapshots@.len(),
                self.wf(),
                layers@.len() == i,
                ordered@.len() == i,
                forall|j: int| 0 <= j < i ==> (#[trigger] layers@[j])@ == snapshot_layer(
                    self.base,
                    snapshots@[n - 1 - j]@,
                ),
                forall|j: int| 0 <= j < i ==> (#[trigger] layers@[j])@.len() == self.base.count() * 4,
                forall|j: int| 0 <= j < i ==> #[trigger] ordered@[j] == image_infos@[n - 1 - j],
                forall|j: int| 0 <= j < i ==> decodes(#[trigger] snapshots@[n - 1 - j]@),
                forall|j: int| 0 <= j < n ==> (#[trigger] image_infos@[j]).wf(),
            decreases n - i,
        {
            let k = n - 1 - i;
            let layer = match self.compose_frame(&snapshots[k]) {
                Ok(l) => l,
                Err(e) => {
                    return Err(e);
                },
            };
            proof {
                crate::compose::lemma_layer_len(self.base, snapshots@[k as int]@);
            }
            layers.push(layer);
            ordered.push(image_infos[k]);
            i = i + 1;
        }
        assert(forall|i: int| 0 <= i < snapshots@.len() ==> decodes(#[trigger] snapshots@[i]@)) by {
            assert forall|i: int| 0 <= i < snapshots@.len() implies decodes(#[trigger] snapshots@[i]@) by {
                assert(snapshots@[n - 1 - (n - 1 - i)] == snapshots@[i]);
            }
        }
        assert(buffer_views(layers@) =~= chronological_layers(self.base, snapshots@));
        assert(ordered@ =~= image_infos@.reverse());
        let bytes = match encode_gif(&layers, self.base.width, self.base.height, FRAME_DELAY_MS) {
            Some(b) => b,
            None => {
                return Err(RainError::Encode);
            },
        };
        let name = self.gif_name(&ordered);
        let path = self.gif_path(name.as_str());
        Ok(Artifact { name, path, bytes })
    }
}

} // verus!
