//! Laws the adapter obeys, proved from the same specification functions its
//! contracts are stated over.

use vstd::prelude::*;

use crate::auth::spec_refresh_failed_message;
use crate::auth::AuthStrategyView;
use crate::dispatch::spec_begin_dispatch;
use crate::dispatch::spec_dispatch_step;
use crate::dispatch::DispatchActionView;
use crate::dispatch::DispatchEventView;
use crate::models::ContentBlockView;
use crate::models::CredentialView;
use crate::models::MessageView;
use crate::models::ProviderErrorView;
use crate::models::RequestView;
use crate::provider::ProviderView;
use crate::transform::spec_block_parts;
use crate::transform::spec_blocks_parts;
use crate::transform::spec_content_parts;
use crate::transform::spec_contents;
use crate::transform::spec_part_block;
use crate::transform::spec_provider_role;
use crate::transform::spec_role_kept;
use crate::wire::GeminiContentView;
use crate::wire::GeminiPartView;

verus! {

/// The request transform preserves message order and maps roles one to
/// one: the provider conversation is exactly the subsequence of user and
/// assistant messages, in their original order, "user" kept and
/// "assistant" turned into "model"; any other role is absent, so the
/// output length equals the count of user and assistant messages.
pub proof fn lemma_contents_preserve_messages(ms: Seq<MessageView>)
    ensures
        spec_contents(ms).len() == ms.filter(|m: MessageView| spec_role_kept(m.role)).len(),
        forall|j: int|
            0 <= j < spec_contents(ms).len() ==> {
                let kept = ms.filter(|m: MessageView| spec_role_kept(m.role));
                #[trigger] spec_contents(ms)[j] == (GeminiContentView {
                    role: spec_provider_role(kept[j].role),
                    parts: spec_content_parts(kept[j].content),
                })
            },
    decreases ms.len(),
{
    reveal(Seq::filter);
    if ms.len() == 0 {
    } else {
        let prefix = ms.drop_last();
        let last = ms.last();
        lemma_contents_preserve_messages(prefix);
        let kept = ms.filter(|m: MessageView| spec_role_kept(m.role));
        let kept_prefix = prefix.filter(|m: MessageView| spec_role_kept(m.role));
        if spec_role_kept(last.role) {
            assert(kept == kept_prefix.push(last));
            assert(spec_contents(ms) == spec_contents(prefix) + seq![
                GeminiContentView {
                    role: spec_provider_role(last.role),
                    parts: spec_content_parts(last.content),
                },
            ]);
        } else {
            assert(kept == kept_prefix);
            assert(spec_contents(ms) =~= spec_contents(prefix));
        }
    }
}

/// Round-trip of text content: the provider parts of a block sequence that
/// is all plain text, mapped back through the response transform's
/// part-to-block rule, are the original blocks, texts and order intact.
pub proof fn lemma_text_blocks_round_trip(bs: Seq<ContentBlockView>)
    requires
        forall|i: int| 0 <= i < bs.len() ==> bs[i] is Text,
    ensures
        spec_blocks_parts(bs).map_values(|p: GeminiPartView| spec_part_block(p)) == bs,
    decreases bs.len(),
{
    if bs.len() == 0 {
        assert(spec_blocks_parts(bs).map_values(|p: GeminiPartView| spec_part_block(p)) =~= bs);
    } else {
        let f = |p: GeminiPartView| spec_part_block(p);
        let init = bs.drop_last();
        lemma_text_blocks_round_trip(init);
        assert(bs.last() is Text);
        let tail = spec_block_parts(bs.last());
        assert(tail =~= seq![GeminiPartView::Text { text: bs.last()->Text_text }]);
        assert((spec_blocks_parts(init) + tail).map_values(f) =~= spec_blocks_parts(
            init,
        ).map_values(f) + tail.map_values(f));
        assert(tail.map_values(f) =~= seq![bs.last()]);
        assert(spec_blocks_parts(bs).map_values(f) =~= bs);
    }
}

/// A dispatch whose stored credential is near expiry and whose refresh
/// operation fails ends with an authentication error, and no step of the
/// trace asks for the HTTP call: the request is never sent.
pub proof fn lemma_failed_refresh_aborts(
    c: ProviderView,
    r: RequestView,
    cred: CredentialView,
    error: Seq<char>,
    ts1: i64,
    ts2: i64,
)
    requires
        c.strategy is OAuth,
        cred.needs_refresh,
    ensures
        ({
            let (s1, a1) = spec_begin_dispatch(c, r);
            let (s2, a2) = spec_dispatch_step(
                c,
                s1,
                DispatchEventView::CredentialLookedUp { credential: Some(cred) },
                ts1,
            );
            let (s3, a3) = spec_dispatch_step(
                c,
                s2,
                DispatchEventView::CredentialRefreshed { outcome: Err(error) },
                ts2,
            );
            &&& !(a1 is SendHttp)
            &&& !(a2 is SendHttp)
            &&& s3 is Finished
            &&& a3 == (DispatchActionView::Finish {
                outcome: Err(
                    ProviderErrorView::AuthError(spec_refresh_failed_message(error)),
                ),
            })
        }),
{
}

} // verus!
