use vstd::prelude::*;

use crate::collections::{Duplicate, StringMap};
use crate::model::{FrameView, NativeFrameModel};

verus! {

/// The frames already read or downloaded, kept in memory by route.
pub struct MemoryFrameSource {
    frames: StringMap<NativeFrameModel>,
}

impl View for MemoryFrameSource {
    type V = Map<Seq<char>, FrameView>;

    closed spec fn view(&self) -> Map<Seq<char>, FrameView> {
        self.frames@
    }
}

/// The routes after forgetting each of `routes`.
pub open spec fn without_routes(frames: Map<Seq<char>, FrameView>, routes: Seq<Seq<char>>) -> Map<
    Seq<char>,
    FrameView,
>
    decreases routes.len(),
{
    if routes.len() == 0 {
        frames
    } else {
        without_routes(frames, routes.drop_last()).remove(routes.last())
    }
}

impl MemoryFrameSource {
    pub fn new() -> (r: Self)
        ensures
            r@ == Map::<Seq<char>, FrameView>::empty(),
    {
        MemoryFrameSource { frames: StringMap::new() }
    }

    pub fn get_frame(&self, route: &str) -> (r: Option<NativeFrameModel>)
        ensures
            r.deep_view() == self@.get(route@),
    {
        match self.frames.get(route) {
            Some(frame) => Some(frame.duplicate()),
            None => None,
        }
    }

    pub fn save_frame(&mut self, route: &str, frame: NativeFrameModel)
        ensures
            final(self)@ == old(self)@.insert(route@, frame.deep_view()),
    {
        self.frames.insert(String::from_str(route), frame);
    }

    pub fn clear(&mut self, route: &str)
        ensures
            final(self)@ == old(self)@.remove(route@),
    {
        self.frames.remove(route);
    }

    pub fn clear_all(&mut self, routes: &Vec<String>)
        ensures
            final(self)@ == without_routes(old(self)@, routes.deep_view()),
    {
        let mut i: usize = 0;
        while i < routes.len()
            invariant
                i <= routes@.len(),
                self@ == without_routes(old(self)@, routes.deep_view().take(i as int)),
            decreases routes@.len() - i,
        {
            self.frames.remove(routes[i].as_str());
            assert(routes.deep_view().take(i + 1).drop_last() =~= routes.deep_view().take(i as int));
            i = i + 1;
        }
        assert(routes.deep_view().take(routes@.len() as int) =~= routes.deep_view());
    }
}

/// A frame read right after it is saved is the frame saved; saving under one
/// route leaves every other route as it was.
pub proof fn law_read_after_save(
    frames: Map<Seq<char>, FrameView>,
    route: Seq<char>,
    other: Seq<char>,
    frame: FrameView,
)
    ensures
        frames.insert(route, frame).get(route) == Some(frame),
        other != route ==> frames.insert(route, frame).get(other) == frames.get(other),
{
}

/// Clearing a list of routes forgets exactly those routes.
pub proof fn law_clear_all_forgets_listed(
    frames: Map<Seq<char>, FrameView>,
    routes: Seq<Seq<char>>,
    route: Seq<char>,
)
    ensures
        routes.contains(route) ==> !without_routes(frames, routes).contains_key(route),
        !routes.contains(route) ==> without_routes(frames, routes).get(route) == frames.get(route),
    decreases routes.len(),
{
    if routes.len() > 0 {
        law_clear_all_forgets_listed(frames, routes.drop_last(), route);
        if routes.contains(route) && route != routes.last() {
            let i = choose|i: int| 0 <= i < routes.len() && routes[i] == route;
            assert(routes.drop_last()[i] == route);
        }
        if !routes.contains(route) {
            assert(route != routes[routes.len() - 1]);
            if routes.drop_last().contains(route) {
                let i = choose|i: int| 0 <= i < routes.drop_last().len() && routes.drop_last()[i] == route;
                assert(routes[i] == route);
            }
        }
    }
}

} // verus!
