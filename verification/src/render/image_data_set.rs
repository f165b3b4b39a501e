//! The image data set: decoded bitmaps by image id and QR codes by payload,
//! handed to the renderer frame by frame without ever making it wait.

use crate::render::image_id::image_id_of;
use crate::render::image_id::parse_image_id;
use crate::render::laws::law_lookup_tracks_once;
use crate::render::loader::forgets;
use crate::render::loader::no_duplicate_ids;
use crate::render::loader::is_first;
use crate::render::loader::tracks;
use crate::render::loader::wants_worker;
use crate::render::loader::worker_asked;
use crate::render::loader::LoaderState;
use crate::render::loader::LoaderView;
use crate::render::loader::Pending;
use crate::render::qrcode::qr_image;
use crate::render::qrcode::to_image;
use crate::render::qrcode::ErrorCorrection;
use crate::render::qrcode::QR_SIZE;
use crate::render::registry::RawBufferRegistry;
use std::collections::HashMap;
use std::rc::Rc;
use vstd::hash_map::StringHashMap;
use vstd::prelude::*;

verus! {

broadcast use vstd::std_specs::hash::group_hash_axioms;

/// What an `ImageDataSet` holds.
pub ghost struct ImageDataSetView<H> {
    /// Resolved images by id. `None` records that an image could not be had,
    /// so that nobody tries again.
    pub images: Map<u64, Option<Rc<H>>>,
    /// QR bitmaps by payload.
    pub qrcodes: Map<Seq<char>, Rc<H>>,
    /// How often a QR code was asked for since the last release.
    pub usage: nat,
}

/// Decoded images and QR codes for one renderer. `H` is whatever the
/// rendering backend makes of raw pixels; the set shares each image with the
/// renderer as an `Rc<H>`.
#[verifier::reject_recursive_types(H)]
pub struct ImageDataSet<H> {
    data: HashMap<u64, Option<Rc<H>>>,
    qrcode: StringHashMap<Rc<H>>,
    usage: u16,
}

impl<H> View for ImageDataSet<H> {
    type V = ImageDataSetView<H>;

    closed spec fn view(&self) -> ImageDataSetView<H> {
        ImageDataSetView { images: self.data@, qrcodes: self.qrcode@, usage: self.usage as nat }
    }
}

/// `load` can turn `pixels` into `image`.
pub open spec fn loads<P, H, F: Fn(&Vec<P>) -> H>(load: F, pixels: Seq<P>, image: H) -> bool {
    exists|buf: Vec<P>| buf@ == pixels && #[trigger] call_ensures(load, (&buf,), image)
}

/// Everything that an image lookup reads or changes.
pub ghost struct Store<H> {
    /// The resolved images of the data set.
    pub images: Map<u64, Option<Rc<H>>>,
    /// The raw buffers staged by the producer.
    pub registry: Map<u64, Seq<u16>>,
    /// The requests queued for the worker.
    pub pending: Seq<Pending>,
}

/// One lookup of image `id`, from the store `pre` to the store `post`, with
/// `image` as its answer.
///
/// - A cached id answers with what is cached, be it an image or the record
///   that there is none, and changes nothing.
/// - Otherwise a staged buffer is taken from the registry, decoded and
///   cached; a request queued for the id is dropped.
/// - Otherwise, where the id is queued, its first entry decides. Not dealt
///   with yet: no answer, no change. Dealt with: the entry leaves the queue
///   and the outcome is cached, the decoded image for pixels, the record that
///   there is none for empty pixels.
/// - Otherwise a request is queued, and there is no answer yet.
pub open spec fn image_looked_up<H, F: Fn(&Vec<u16>) -> H>(
    decode: F,
    pre: Store<H>,
    id: u64,
    post: Store<H>,
    image: Option<Rc<H>>,
) -> bool {
    if pre.images.contains_key(id) {
        &&& image == pre.images[id]
        &&& post.images == pre.images
        &&& post.registry == pre.registry
        &&& post.pending == pre.pending
    } else if pre.registry.contains_key(id) {
        &&& image matches Some(h)
        &&& loads(decode, pre.registry[id], *h)
        &&& post.images == pre.images.insert(id, image)
        &&& post.registry == pre.registry.remove(id)
        &&& forgets(pre.pending, id, post.pending)
    } else if tracks(pre.pending, id) {
        &&& post.registry == pre.registry
        &&& forall|i: int| #[trigger]
            is_first(pre.pending, id, i) ==> match pre.pending[i].1 {
                None => {
                    &&& image is None
                    &&& post.images == pre.images
                    &&& post.pending == pre.pending
                },
                Some(pixels) => {
                    &&& post.images == pre.images.insert(id, image)
                    &&& post.pending == pre.pending.remove(i)
                    &&& if pixels.len() == 0 {
                        image is None
                    } else {
                        image matches Some(h) && loads(decode, pixels, *h)
                    }
                },
            }
    } else {
        &&& image is None
        &&& post.images == pre.images
        &&& post.registry == pre.registry
        &&& post.pending == pre.pending.push((id, None))
    }
}

/// An image id is tracked in one place at most: no id is queued twice, and
/// an id with a cached result is not queued at all.
pub open spec fn tracked_once<H>(store: Store<H>) -> bool {
    &&& no_duplicate_ids(store.pending)
    &&& forall|id: u64| #[trigger] store.images.contains_key(id) ==> !tracks(store.pending, id)
}

/// What a QR lookup that missed the cache makes of the encoder's answer:
/// a bitmap is loaded, cached under the payload and returned; no bitmap
/// leaves the cache as it was and returns nothing.
pub open spec fn qrcode_stored<H, F: Fn(&Vec<u8>) -> H>(
    load: F,
    pre: ImageDataSetView<H>,
    payload: Seq<char>,
    encoded: Option<Seq<u8>>,
    post: ImageDataSetView<H>,
    image: Option<Rc<H>>,
) -> bool {
    &&& post.images == pre.images
    &&& post.usage == pre.usage
    &&& match encoded {
        Some(pixels) => {
            &&& image matches Some(h)
            &&& loads(load, pixels, *h)
            &&& post.qrcodes == pre.qrcodes.insert(payload, h)
        },
        None => image is None && post.qrcodes == pre.qrcodes,
    }
}

/// One QR lookup: the usage count goes up by one; a cached payload returns
/// its image; any other payload is encoded and dealt with as
/// [`qrcode_stored`] says.
pub open spec fn qrcode_looked_up<H, F: Fn(&Vec<u8>) -> H>(
    load: F,
    pre: ImageDataSetView<H>,
    payload: Seq<char>,
    post: ImageDataSetView<H>,
    image: Option<Rc<H>>,
) -> bool {
    let counted = ImageDataSetView { usage: pre.usage + 1, ..pre };
    if pre.qrcodes.contains_key(payload) {
        post == counted && image == Some(pre.qrcodes[payload])
    } else {
        qrcode_stored(
            load,
            counted,
            payload,
            qr_image(payload, ErrorCorrection::Low, QR_SIZE),
            post,
            image,
        )
    }
}

/// The set after the end-of-frame release: a frame in which no QR code was
/// asked for empties the QR cache; every frame starts the count again.
pub open spec fn qrcodes_released<H>(pre: ImageDataSetView<H>) -> ImageDataSetView<H> {
    ImageDataSetView {
        images: pre.images,
        qrcodes: if pre.usage == 0 {
            Map::empty()
        } else {
            pre.qrcodes
        },
        usage: 0,
    }
}

/// `Rc::clone`.
///
/// Trusted: the new handle points at the allocation that `handle` points at,
/// so both stand for the same image.
#[verifier::external_body]
fn share<H>(handle: &Rc<H>) -> (shared: Rc<H>)
    ensures
        shared == *handle,
{
    Rc::clone(handle)
}

impl<H> ImageDataSet<H> {
    /// An empty set.
    pub fn new() -> (set: Self)
        ensures
            set@ == (ImageDataSetView::<H> { images: Map::empty(), qrcodes: Map::empty(), usage: 0 }),
    {
        ImageDataSet { data: HashMap::new(), qrcode: StringHashMap::new(), usage: 0 }
    }

    /// The data set's images together with the registry and the queue that
    /// a lookup works on.
    pub open spec fn store(&self, registry: &RawBufferRegistry, loader: &LoaderState) -> Store<H> {
        Store { images: self@.images, registry: registry@, pending: loader@.pending }
    }

    /// How often a QR code was asked for since the last release.
    pub fn usage_count(&self) -> (n: u16)
        ensures
            n == self@.usage,
    {
        self.usage
    }

    /// The number of image ids with a cached result.
    pub fn image_count(&self) -> (n: usize)
        ensures
            n == self@.images.len(),
    {
        self.data.len()
    }

    /// The number of cached QR codes.
    pub fn qrcode_count(&self) -> (n: usize)
        ensures
            n == self@.qrcodes.len(),
    {
        broadcast use vstd::hash_map::group_hash_map_axioms;

        self.qrcode.len()
    }

    /// Reads the redraw flag and lowers it: `true` once for each time the
    /// worker raised it since the last call.
    pub fn is_update(&mut self, loader: &mut LoaderState) -> (update: bool)
        ensures
            update == old(loader)@.need_update,
            final(loader)@ == (LoaderView { need_update: false, ..old(loader)@ }),
            final(self)@ == old(self)@,
    {
        loader.take_update()
    }

    /// Asks whether a worker run should start now. It should where none is
    /// under way and a request is queued; the state then counts one as
    /// under way, until [`LoaderState::worker_next`] finds nothing to do.
    /// On `true` the caller starts the run.
    pub fn loading_missing_image(&mut self, loader: &mut LoaderState) -> (start: bool)
        ensures
            start == wants_worker(old(loader)@),
            final(loader)@ == worker_asked(old(loader)@),
            final(self)@ == old(self)@,
    {
        loader.start_worker()
    }

    /// The image for the id written in `id`, if it is there yet.
    ///
    /// Text that is no image id returns `None` and changes nothing. For an
    /// id, the lookup is the one that [`image_looked_up`] describes. It never
    /// waits: an image that is not there yet is asked for again on a later
    /// frame. Where every id was tracked in one place at most, it still is.
    pub fn get_image<F: Fn(&Vec<u16>) -> H>(
        &mut self,
        registry: &mut RawBufferRegistry,
        loader: &mut LoaderState,
        id: &str,
        decode: F,
    ) -> (image: Option<Rc<H>>)
        requires
            forall|pixels: Vec<u16>| call_requires(decode, (&pixels,)),
        ensures
            match image_id_of(id@) {
                Some(n) => image_looked_up(
                    decode,
                    old(self).store(old(registry), old(loader)),
                    n,
                    final(self).store(final(registry), final(loader)),
                    image,
                ),
                None => {
                    &&& image is None
                    &&& final(self)@ == old(self)@
                    &&& final(registry)@ == old(registry)@
                    &&& final(loader)@ == old(loader)@
                },
            },
            final(self)@.qrcodes == old(self)@.qrcodes,
            final(self)@.usage == old(self)@.usage,
            final(loader)@.need_update == old(loader)@.need_update,
            final(loader)@.worker_active == old(loader)@.worker_active,
            tracked_once(old(self).store(old(registry), old(loader))) ==> tracked_once(
                final(self).store(final(registry), final(loader)),
            ),
    {
        match parse_image_id(id) {
            Some(n) => self.lookup(registry, loader, n, decode),
            None => None,
        }
    }

    /// The image for `id`, if it is there yet: the lookup that
    /// [`image_looked_up`] describes.
    pub fn lookup<F: Fn(&Vec<u16>) -> H>(
        &mut self,
        registry: &mut RawBufferRegistry,
        loader: &mut LoaderState,
        id: u64,
        decode: F,
    ) -> (image: Option<Rc<H>>)
        requires
            forall|pixels: Vec<u16>| call_requires(decode, (&pixels,)),
        ensures
            image_looked_up(
                decode,
                old(self).store(old(registry), old(loader)),
                id,
                final(self).store(final(registry), final(loader)),
                image,
            ),
            final(self)@.qrcodes == old(self)@.qrcodes,
            final(self)@.usage == old(self)@.usage,
            final(loader)@.need_update == old(loader)@.need_update,
            final(loader)@.worker_active == old(loader)@.worker_active,
            tracked_once(old(self).store(old(registry), old(loader))) ==> tracked_once(
                final(self).store(final(registry), final(loader)),
            ),
    {
        let image = self.resolve(registry, loader, id, decode);
        proof {
            let pre = old(self).store(old(registry), old(loader));
            if tracked_once(pre) {
                law_lookup_tracks_once(
                    decode,
                    pre,
                    id,
                    self.store(registry, loader),
                    image,
                );
            }
        }
        image
    }

    fn resolve<F: Fn(&Vec<u16>) -> H>(
        &mut self,
        registry: &mut RawBufferRegistry,
        loader: &mut LoaderState,
        n: u64,
        decode: F,
    ) -> (image: Option<Rc<H>>)
        requires
            forall|pixels: Vec<u16>| call_requires(decode, (&pixels,)),
        ensures
            image_looked_up(
                decode,
                old(self).store(old(registry), old(loader)),
                n,
                final(self).store(final(registry), final(loader)),
                image,
            ),
            final(self)@.qrcodes == old(self)@.qrcodes,
            final(self)@.usage == old(self)@.usage,
            final(loader)@.need_update == old(loader)@.need_update,
            final(loader)@.worker_active == old(loader)@.worker_active,
    {
        match self.data.get(&n) {
            Some(cached) => {
                return match cached {
                    Some(image) => Some(share(image)),
                    None => None,
                };
            },
            None => {},
        }
        match registry.take(n) {
            Some(pixels) => {
                let image = Rc::new(decode(&pixels));
                assert(loads(decode, pixels@, *image));
                self.data.insert(n, Some(share(&image)));
                loader.forget(n);
                return Some(image);
            },
            None => {},
        }
        assert(registry@ =~= old(registry)@);
        match loader.position(n) {
            Some(idx) => {
                let item = match loader.buffer_at(idx) {
                    Some(pixels) => {
                        if pixels.len() > 0 {
                            let image = Rc::new(decode(pixels));
                            assert(loads(decode, pixels@, *image));
                            Some(image)
                        } else {
                            None
                        }
                    },
                    None => {
                        return None;
                    },
                };
                let image = match &item {
                    Some(image) => Some(share(image)),
                    None => None,
                };
                self.data.insert(n, item);
                loader.remove_at(idx);
                image
            },
            None => {
                loader.request(n);
                None
            },
        }
    }

    /// Caches `image` as the QR code of `id`, in place of an earlier one.
    pub fn add_qrcode(&mut self, id: String, image: Rc<H>)
        ensures
            final(self)@ == (ImageDataSetView {
                qrcodes: old(self)@.qrcodes.insert(id@, image),
                ..old(self)@
            }),
    {
        self.qrcode.insert(id, image);
    }

    /// The second half of a QR lookup that missed the cache: `encoded` is
    /// what the encoder made of `id`.
    pub fn store_qrcode<F: Fn(&Vec<u8>) -> H>(
        &mut self,
        id: &str,
        encoded: Option<Vec<u8>>,
        load: F,
    ) -> (image: Option<Rc<H>>)
        requires
            encoded matches Some(pixels) ==> call_requires(load, (&pixels,)),
        ensures
            qrcode_stored(
                load,
                old(self)@,
                id@,
                match encoded {
                    Some(pixels) => Some(pixels@),
                    None => None,
                },
                final(self)@,
                image,
            ),
    {
        match encoded {
            Some(pixels) => {
                let image = Rc::new(load(&pixels));
                self.add_qrcode(id.to_owned(), share(&image));
                assert(loads(load, pixels@, *image));
                Some(image)
            },
            None => None,
        }
    }

    /// The QR code for the payload `id`, from the cache or drawn now at
    /// [`QR_SIZE`] pixels a side and the lowest error-correction level.
    /// A payload that cannot be drawn returns `None` and is not cached.
    pub fn get_qrcode<F: Fn(&Vec<u8>) -> H>(&mut self, id: &str, load: F) -> (image: Option<Rc<H>>)
        requires
            old(self)@.usage < u16::MAX,
            forall|pixels: Vec<u8>|
                pixels@.len() == QR_SIZE * QR_SIZE ==> call_requires(load, (&pixels,)),
        ensures
            qrcode_looked_up(load, old(self)@, id@, final(self)@, image),
    {
        self.usage = self.usage + 1;
        match self.qrcode.get(id) {
            Some(image) => Some(share(image)),
            None => {
                let encoded = match to_image(id, ErrorCorrection::Low, QR_SIZE) {
                    Ok(pixels) => Some(pixels),
                    Err(_) => None,
                };
                self.store_qrcode(id, encoded, load)
            },
        }
    }

    /// Ends a frame for the QR cache. If no QR code was asked for since the
    /// last release, every cached code goes; otherwise all stay. The usage
    /// count starts again at zero.
    pub fn release_qrcode(&mut self)
        ensures
            final(self)@ == qrcodes_released(old(self)@),
            old(self)@.usage == 0 ==> final(self)@.qrcodes == Map::<Seq<char>, Rc<H>>::empty(),
            old(self)@.usage > 0 ==> final(self)@.qrcodes == old(self)@.qrcodes,
            final(self)@.usage == 0,
    {
        if self.usage == 0 && !self.qrcode.is_empty() {
            self.qrcode.clear();
        }
        self.usage = 0;
        assert(self@.qrcodes =~= qrcodes_released(old(self)@).qrcodes);
    }
}

} // verus!
