pub mod app;
pub mod demographics;
pub mod field;
pub mod npc;
pub mod place;
pub mod reference;
pub mod rng;
pub mod text;
pub mod world;

use vstd::prelude::*;

verus! {

/// Builds an application session around the given persistence backend:
/// a fresh, entity-free context backed by exactly that store.
pub fn app<D: crate::app::DataStore>(data_store: D) -> (r: crate::app::App<D>)
    ensures
        r.wf(),
        r.meta.is_fresh(data_store),
{
    let app_meta = crate::app::AppMeta::new(data_store);
    crate::app::App::new(app_meta)
}

} // verus!
