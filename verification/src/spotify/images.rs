//! Choosing which of an item's images to show.
use vstd::prelude::*;

use crate::spotify::types::SpotifyImage;

verus! {

/// The size an image is known by: its width, else its height.
pub open spec fn image_dim(img: SpotifyImage) -> Option<u32> {
    match img.width {
        Some(w) => Some(w),
        None => img.height,
    }
}

/// How far an image of size `dim` is from `target`: whether it is smaller,
/// then by how much. Larger images are preferred to smaller ones.
pub open spec fn fit(dim: u32, target: u32) -> (bool, int) {
    if dim < target { (true, target - dim) } else { (false, dim - target) }
}

/// Strictly better fit.
pub open spec fn fit_lt(a: (bool, int), b: (bool, int)) -> bool {
    (!a.0 && b.0) || (a.0 == b.0 && a.1 < b.1)
}

/// The position of the first sized image with the best fit to `target`.
pub open spec fn best_fit(images: Seq<SpotifyImage>, target: u32) -> Option<int>
    decreases images.len(),
{
    if images.len() == 0 {
        None
    } else {
        let b = best_fit(images.drop_last(), target);
        let i = images.len() - 1;
        match image_dim(images[i]) {
            Some(d) => match b {
                Some(j) => if fit_lt(fit(d, target), fit(image_dim(images[j])->0, target)) { Some(i) } else { b },
                None => Some(i),
            },
            None => b,
        }
    }
}

/// The URL of the image that fits `target` best, else of the first image.
pub open spec fn pick_image_spec(images: Seq<SpotifyImage>, target: u32) -> Option<Seq<char>> {
    if images.len() == 0 {
        None
    } else {
        match best_fit(images, target) {
            Some(i) => Some(images[i].url@),
            None => Some(images[0].url@),
        }
    }
}

/// The size an image is compared by when looking for the largest: 0 if unknown.
pub open spec fn size_or_zero(img: SpotifyImage) -> u32 {
    match image_dim(img) {
        Some(d) => d,
        None => 0,
    }
}

/// The position of the last image of the largest size.
pub open spec fn largest(images: Seq<SpotifyImage>) -> int
    decreases images.len(),
{
    if images.len() <= 1 {
        0
    } else {
        let b = largest(images.drop_last());
        let i = images.len() - 1;
        if size_or_zero(images[i]) >= size_or_zero(images[b]) { i } else { b }
    }
}

/// The URL of the largest image.
pub open spec fn pick_largest_spec(images: Seq<SpotifyImage>) -> Option<Seq<char>> {
    if images.len() == 0 { None } else { Some(images[largest(images)].url@) }
}

proof fn lemma_best_fit_in_range(images: Seq<SpotifyImage>, target: u32)
    ensures
        best_fit(images, target) matches Some(i) ==> 0 <= i < images.len() && image_dim(images[i]) is Some,
    decreases images.len(),
{
    if images.len() > 0 {
        lemma_best_fit_in_range(images.drop_last(), target);
        let b = best_fit(images.drop_last(), target);
        if let Some(j) = b {
            assert(images.drop_last()[j] == images[j]);
        }
    }
}

proof fn lemma_largest_in_range(images: Seq<SpotifyImage>)
    ensures
        images.len() > 0 ==> 0 <= largest(images) < images.len(),
    decreases images.len(),
{
    if images.len() > 1 {
        lemma_largest_in_range(images.drop_last());
        assert(images.drop_last()[largest(images.drop_last())] == images[largest(images.drop_last())]);
    }
}

fn dim_of(img: &SpotifyImage) -> (d: Option<u32>)
    ensures
        d == image_dim(*img),
{
    match img.width {
        Some(w) => Some(w),
        None => img.height,
    }
}

fn fit_of(dim: u32, target: u32) -> (f: (bool, u32))
    ensures
        (f.0, f.1 as int) == fit(dim, target),
{
    if dim < target { (true, target - dim) } else { (false, dim - target) }
}

/// The URL of the image whose size is closest to `target` pixels, preferring
/// larger images to smaller ones, the first of equals winning; the first image
/// when none has a size; nothing for no images.
pub fn pick_image_url(images: &Vec<SpotifyImage>, target_px: u32) -> (url: Option<String>)
    ensures
        match url {
            Some(u) => pick_image_spec(images@, target_px) == Some(u@),
            None => pick_image_spec(images@, target_px) is None,
        },
{
    if images.len() == 0 {
        return None;
    }
    let mut best: Option<usize> = None;
    let mut best_fit_val: (bool, u32) = (false, 0);
    let mut i: usize = 0;
    while i < images.len()
        invariant
            i <= images.len(),
            best_fit(images@.take(i as int), target_px) == (match best { Some(b) => Some(b as int), None => None }),
            best matches Some(b) ==> b < i && image_dim(images@[b as int]) is Some
                && (best_fit_val.0, best_fit_val.1 as int) == fit(image_dim(images@[b as int])->0, target_px),
        decreases images.len() - i,
    {
        let ghost pre = images@.take(i as int);
        let ghost post = images@.take(i + 1);
        assert(post.drop_last() =~= pre);
        assert(post[i as int] == images@[i as int]);
        if let Some(b) = best {
            assert(post[b as int] == images@[b as int]);
        }
        if let Some(d) = dim_of(&images[i]) {
            let f = fit_of(d, target_px);
            let better = match best {
                None => true,
                Some(_) => (!f.0 && best_fit_val.0) || (f.0 == best_fit_val.0 && f.1 < best_fit_val.1),
            };
            if better {
                best = Some(i);
                best_fit_val = f;
            }
        }
        i += 1;
    }
    assert(images@.take(images@.len() as int) =~= images@);
    match best {
        Some(b) => Some(images[b].url.clone()),
        None => Some(images[0].url.clone()),
    }
}

/// The URL of the largest image (the last of equals); images without a size
/// count as size 0; nothing for no images.
pub fn pick_largest_image_url(images: &Vec<SpotifyImage>) -> (url: Option<String>)
    ensures
        match url {
            Some(u) => pick_largest_spec(images@) == Some(u@),
            None => pick_largest_spec(images@) is None,
        },
{
    if images.len() == 0 {
        return None;
    }
    let mut best: usize = 0;
    let mut best_size: u32 = match dim_of(&images[0]) { Some(d) => d, None => 0 };
    let mut i: usize = 1;
    while i < images.len()
        invariant
            1 <= i <= images.len(),
            best < i,
            largest(images@.take(i as int)) == best as int,
            best_size == size_or_zero(images@[best as int]),
        decreases images.len() - i,
    {
        let ghost pre = images@.take(i as int);
        let ghost post = images@.take(i + 1);
        assert(post.drop_last() =~= pre);
        assert(post[i as int] == images@[i as int]);
        assert(post[best as int] == images@[best as int]);
        let size = match dim_of(&images[i]) { Some(d) => d, None => 0 };
        if size >= best_size {
            best = i;
            best_size = size;
        }
        i += 1;
    }
    assert(images@.take(images@.len() as int) =~= images@);
    Some(images[best].url.clone())
}

/// The image picked for a target size has the best fit of all sized images,
/// and no earlier image fits as well.
pub proof fn law_pick_image_is_closest(images: Seq<SpotifyImage>, target: u32)
    ensures
        best_fit(images, target) matches Some(b) ==> (forall|j: int| 0 <= j < images.len() && image_dim(#[trigger] images[j]) is Some ==>
            !fit_lt(fit(image_dim(images[j])->0, target), fit(image_dim(images[b])->0, target))
            && (j < b ==> fit_lt(fit(image_dim(images[b])->0, target), fit(image_dim(images[j])->0, target)))),
        (best_fit(images, target) is None) == (forall|j: int| 0 <= j < images.len() ==> image_dim(#[trigger] images[j]) is None),
    decreases images.len(),
{
    lemma_best_fit_in_range(images, target);
    if images.len() > 0 {
        let d = images.drop_last();
        law_pick_image_is_closest(d, target);
        lemma_best_fit_in_range(d, target);
        assert forall|j: int| 0 <= j < d.len() implies #[trigger] d[j] == images[j] by {}
        let n = images.len() - 1;
        if let Some(b) = best_fit(images, target) {
            assert forall|j: int| 0 <= j < images.len() && image_dim(#[trigger] images[j]) is Some implies
                !fit_lt(fit(image_dim(images[j])->0, target), fit(image_dim(images[b])->0, target))
                && (j < b ==> fit_lt(fit(image_dim(images[b])->0, target), fit(image_dim(images[j])->0, target))) by {
                if j < n {
                    assert(d[j] == images[j]);
                    assert(image_dim(d[j]) is Some);
                }
            }
        }
        if best_fit(images, target) is None {
            assert forall|j: int| 0 <= j < images.len() implies image_dim(#[trigger] images[j]) is None by {
                if j < n {
                    assert(d[j] == images[j]);
                }
            }
        } else if forall|j: int| 0 <= j < images.len() ==> image_dim(#[trigger] images[j]) is None {
            assert forall|j: int| 0 <= j < d.len() implies image_dim(#[trigger] d[j]) is None by {
                assert(d[j] == images[j]);
            }
            assert(image_dim(images[n]) is None);
        }
    }
}

/// The largest pick has the greatest size, and no later image is as large.
pub proof fn law_pick_largest_is_largest(images: Seq<SpotifyImage>)
    requires
        images.len() > 0,
    ensures
        forall|j: int| 0 <= j < images.len() ==> size_or_zero(#[trigger] images[j]) <= size_or_zero(images[largest(images)]),
        forall|j: int| largest(images) < j < images.len() ==> size_or_zero(#[trigger] images[j]) < size_or_zero(images[largest(images)]),
    decreases images.len(),
{
    lemma_largest_in_range(images);
    if images.len() > 1 {
        let d = images.drop_last();
        law_pick_largest_is_largest(d);
        lemma_largest_in_range(d);
        assert forall|j: int| 0 <= j < d.len() implies #[trigger] d[j] == images[j] by {}
        let n = images.len() - 1;
        assert forall|j: int| 0 <= j < images.len() implies size_or_zero(#[trigger] images[j]) <= size_or_zero(images[largest(images)]) by {
            if j < n {
                assert(d[j] == images[j]);
            }
        }
        assert forall|j: int| largest(images) < j < images.len() implies size_or_zero(#[trigger] images[j]) < size_or_zero(images[largest(images)]) by {
            if j < n {
                assert(d[j] == images[j]);
            }
        }
    }
}

} // verus!
