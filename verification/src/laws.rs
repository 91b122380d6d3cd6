//! Laws of the collector pipeline, stated over its mathematical model.

use crate::app::{
    collect_model, entry_kept, record_of, AppModel, EntryModel,
};
use crate::text::any_contains;
use vstd::prelude::*;
use vstd::utf8::valid_utf8;

verus! {

/// Law: with no filters configured, every entry whose leading bytes and whole
/// contents are valid UTF-8 contributes exactly one record, in order, holding
/// its path and its decoded contents.
pub proof fn lemma_all_text_collected(cfg: AppModel, es: Seq<EntryModel>)
    requires
        cfg.file_names is None,
        cfg.not_need_paths is None,
        forall|i: int|
            0 <= i < es.len() ==> valid_utf8(#[trigger] es[i].prefix) && es[i].data is Some
                && valid_utf8(es[i].data->0),
    ensures
        collect_model(cfg, es).len() == es.len(),
        forall|i: int| 0 <= i < es.len() ==> collect_model(cfg, es)[i] == record_of(#[trigger] es[i]),
    decreases es.len(),
{
    if es.len() > 0 {
        let pre = es.drop_last();
        lemma_all_text_collected(cfg, pre);
        assert(entry_kept(cfg, es.last()));
        assert forall|i: int| 0 <= i < es.len() implies collect_model(cfg, es)[i] == record_of(
            #[trigger] es[i],
        ) by {
            if i < es.len() - 1 {
                assert(collect_model(cfg, pre)[i] == record_of(pre[i]));
            }
        }
    }
}

/// Law: an entry whose leading bytes are not valid UTF-8 is never kept, and
/// the collected records are the same as if the entry had not been observed,
/// whatever the filters say.
pub proof fn lemma_binary_excluded(cfg: AppModel, es: Seq<EntryModel>, i: int)
    requires
        0 <= i < es.len(),
        !valid_utf8(es[i].prefix),
    ensures
        !entry_kept(cfg, es[i]),
        collect_model(cfg, es) == collect_model(cfg, es.remove(i)),
    decreases es.len(),
{
    if i == es.len() - 1 {
        assert(es.remove(i) =~= es.drop_last());
    } else {
        lemma_binary_excluded(cfg, es.drop_last(), i);
        assert(es.remove(i).drop_last() =~= es.drop_last().remove(i));
        assert(es.remove(i).last() == es.last());
    }
}

/// Law: an entry whose path holds a configured exclude substring is never
/// kept, even when its name would pass the include filter.
pub proof fn lemma_exclude_overrides_include(cfg: AppModel, e: EntryModel)
    requires
        cfg.not_need_paths is Some,
        any_contains(cfg.not_need_paths->0, e.path),
    ensures
        !entry_kept(cfg, e),
{
}

/// Law: the collected records depend only on the two filters and on what was
/// observed of each file, so collecting twice over an unchanged tree yields
/// the same (path, content) pairs.
pub proof fn lemma_collect_repeatable(cfg1: AppModel, cfg2: AppModel, es: Seq<EntryModel>)
    requires
        cfg1.file_names == cfg2.file_names,
        cfg1.not_need_paths == cfg2.not_need_paths,
    ensures
        collect_model(cfg1, es) == collect_model(cfg2, es),
    decreases es.len(),
{
    if es.len() > 0 {
        lemma_collect_repeatable(cfg1, cfg2, es.drop_last());
        assert(entry_kept(cfg1, es.last()) == entry_kept(cfg2, es.last()));
    }
}

} // verus!
