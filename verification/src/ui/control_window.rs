use vstd::prelude::*;

use crate::config::{
    lemma_image_extensions_are_listed, lemma_media_kinds_disjoint, lemma_video_extensions_are_listed,
    lemma_vtt_extensions_are_listed, IMAGE_EXTENSIONS, VIDEO_EXTENSIONS, VTT_EXTENSIONS,
    image_extension, is_image_extension, is_video_extension, is_vtt_extension, video_extension,
    vtt_extension,
};
use crate::text::{extension_of, path_extension, views};

verus! {

broadcast use vstd::string::group_string_axioms;

/// A path whose extension satisfies the predicate.
pub open spec fn has_extension_in(p: Seq<char>, kind: spec_fn(Seq<char>) -> bool) -> bool {
    match path_extension(p) {
        Some(e) => kind(e),
        None => false,
    }
}

/// The paths of the files, in order, whose extension satisfies the predicate.
pub open spec fn files_of_kind(files: Seq<Seq<char>>, kind: spec_fn(Seq<char>) -> bool) -> Seq<Seq<char>> {
    files.filter(|p: Seq<char>| has_extension_in(p, kind))
}

/// Split the paths of the files of a campaign folder into images, virtual
/// table top files and videos, each in the order given, by their extension;
/// other files are left out.
pub fn seperate_media(files: &Vec<String>) -> (res: (Vec<String>, Vec<String>, Vec<String>))
    ensures
        views(res.0@) == files_of_kind(views(files@), |e: Seq<char>| is_image_extension(e)),
        views(res.1@) == files_of_kind(views(files@), |e: Seq<char>| is_vtt_extension(e)),
        views(res.2@) == files_of_kind(views(files@), |e: Seq<char>| is_video_extension(e)),
{
    let ghost fv = views(files@);
    let ghost pi = |p: Seq<char>| has_extension_in(p, |e: Seq<char>| is_image_extension(e));
    let ghost pt = |p: Seq<char>| has_extension_in(p, |e: Seq<char>| is_vtt_extension(e));
    let ghost pv = |p: Seq<char>| has_extension_in(p, |e: Seq<char>| is_video_extension(e));
    let mut images: Vec<String> = Vec::new();
    let mut vtts: Vec<String> = Vec::new();
    let mut videos: Vec<String> = Vec::new();
    let mut i: usize = 0;
    while i < files.len()
        invariant
            i <= files@.len(),
            fv == views(files@),
            pi == (|p: Seq<char>| has_extension_in(p, |e: Seq<char>| is_image_extension(e))),
            pt == (|p: Seq<char>| has_extension_in(p, |e: Seq<char>| is_vtt_extension(e))),
            pv == (|p: Seq<char>| has_extension_in(p, |e: Seq<char>| is_video_extension(e))),
            views(images@) == fv.take(i as int).filter(pi),
            views(vtts@) == fv.take(i as int).filter(pt),
            views(videos@) == fv.take(i as int).filter(pv),
        decreases files@.len() - i,
    {
        proof {
            reveal_with_fuel(Seq::filter, 1);
            assert(fv.take(i + 1).drop_last() =~= fv.take(i as int));
            assert(fv[i as int] == files@[i as int]@);
        }
        let ghost before_images = images@;
        let ghost before_vtts = vtts@;
        let ghost before_videos = videos@;
        match extension_of(files[i].as_str()) {
            None => {},
            Some(ext) => {
                if image_extension(ext.as_str()) {
                    proof {
                        lemma_media_kinds_disjoint(ext@);
                    }
                    images.push(files[i].clone());
                } else if vtt_extension(ext.as_str()) {
                    proof {
                        lemma_media_kinds_disjoint(ext@);
                    }
                    vtts.push(files[i].clone());
                } else if video_extension(ext.as_str()) {
                    videos.push(files[i].clone());
                }
            },
        }
        assert(views(images@) =~= fv.take(i + 1).filter(pi));
        assert(views(vtts@) =~= fv.take(i + 1).filter(pt));
        assert(views(videos@) =~= fv.take(i + 1).filter(pv));
        i = i + 1;
    }
    assert(fv.take(files@.len() as int) =~= fv);
    (images, vtts, videos)
}

} // verus!

verus! {

/// No file is listed under two kinds of media.
pub proof fn lemma_media_lists_disjoint(files: Seq<Seq<char>>, p: Seq<char>)
    ensures
        !(files_of_kind(files, |e: Seq<char>| is_image_extension(e)).contains(p) && files_of_kind(
            files,
            |e: Seq<char>| is_vtt_extension(e),
        ).contains(p)),
        !(files_of_kind(files, |e: Seq<char>| is_image_extension(e)).contains(p) && files_of_kind(
            files,
            |e: Seq<char>| is_video_extension(e),
        ).contains(p)),
        !(files_of_kind(files, |e: Seq<char>| is_vtt_extension(e)).contains(p) && files_of_kind(
            files,
            |e: Seq<char>| is_video_extension(e),
        ).contains(p)),
{
    let ki = |e: Seq<char>| is_image_extension(e);
    let kt = |e: Seq<char>| is_vtt_extension(e);
    let kv = |e: Seq<char>| is_video_extension(e);
    let fi = files_of_kind(files, ki);
    let ft = files_of_kind(files, kt);
    let fv = files_of_kind(files, kv);
    broadcast use vstd::seq_lib::group_filter_ensures;

    if let Some(e) = path_extension(p) {
        lemma_media_kinds_disjoint(e);
    }
    if fi.contains(p) {
        let i = choose|i: int| 0 <= i < fi.len() && fi[i] == p;
        assert(has_extension_in(fi[i], ki));
    }
    if ft.contains(p) {
        let i = choose|i: int| 0 <= i < ft.len() && ft[i] == p;
        assert(has_extension_in(ft[i], kt));
    }
    if fv.contains(p) {
        let i = choose|i: int| 0 <= i < fv.len() && fv[i] == p;
        assert(has_extension_in(fv[i], kv));
    }
}

} // verus!

verus! {

/// A path is listed among the images exactly when it is one of the files and
/// its extension is one of `IMAGE_EXTENSIONS`; likewise for the virtual table
/// top files with `VTT_EXTENSIONS` and the videos with `VIDEO_EXTENSIONS`. Any
/// other file is in no list.
pub proof fn lemma_media_lists_follow_the_constants(files: Seq<Seq<char>>, p: Seq<char>)
    ensures
        files_of_kind(files, |e: Seq<char>| is_image_extension(e)).contains(p) <==> (files.contains(p)
            && (path_extension(p) matches Some(e) && exists|k: int|
            0 <= k < IMAGE_EXTENSIONS@.len() && e == #[trigger] IMAGE_EXTENSIONS@[k]@)),
        files_of_kind(files, |e: Seq<char>| is_vtt_extension(e)).contains(p) <==> (files.contains(p)
            && (path_extension(p) matches Some(e) && exists|k: int|
            0 <= k < VTT_EXTENSIONS@.len() && e == #[trigger] VTT_EXTENSIONS@[k]@)),
        files_of_kind(files, |e: Seq<char>| is_video_extension(e)).contains(p) <==> (files.contains(p)
            && (path_extension(p) matches Some(e) && exists|k: int|
            0 <= k < VIDEO_EXTENSIONS@.len() && e == #[trigger] VIDEO_EXTENSIONS@[k]@)),
{
    broadcast use vstd::seq_lib::group_filter_ensures;

    let ki = |e: Seq<char>| is_image_extension(e);
    let kt = |e: Seq<char>| is_vtt_extension(e);
    let kv = |e: Seq<char>| is_video_extension(e);
    let pi = |q: Seq<char>| has_extension_in(q, ki);
    let pt = |q: Seq<char>| has_extension_in(q, kt);
    let pv = |q: Seq<char>| has_extension_in(q, kv);
    if let Some(e) = path_extension(p) {
        lemma_image_extensions_are_listed(e);
        lemma_vtt_extensions_are_listed(e);
        lemma_video_extensions_are_listed(e);
    }
    if files.filter(pi).contains(p) {
        files.lemma_filter_contains_rev(pi, p);
        let i = choose|i: int| 0 <= i < files.filter(pi).len() && files.filter(pi)[i] == p;
        assert(pi(files.filter(pi)[i]));
    }
    if files.filter(pt).contains(p) {
        files.lemma_filter_contains_rev(pt, p);
        let i = choose|i: int| 0 <= i < files.filter(pt).len() && files.filter(pt)[i] == p;
        assert(pt(files.filter(pt)[i]));
    }
    if files.filter(pv).contains(p) {
        files.lemma_filter_contains_rev(pv, p);
        let i = choose|i: int| 0 <= i < files.filter(pv).len() && files.filter(pv)[i] == p;
        assert(pv(files.filter(pv)[i]));
    }
    if files.contains(p) {
        let i = choose|i: int| 0 <= i < files.len() && files[i] == p;
        if pi(p) {
            assert(files.filter(pi).contains(files[i]));
        }
        if pt(p) {
            assert(files.filter(pt).contains(files[i]));
        }
        if pv(p) {
            assert(files.filter(pv).contains(files[i]));
        }
    }
}

} // verus!
