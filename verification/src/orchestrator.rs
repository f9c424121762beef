//! The run over all configured sources. Sources are discovered one by one; a
//! failed discovery is dropped and the remaining sources proceed unharmed.
//! All successful descriptors are handed to one shared downloader, so the
//! transfer cap holds globally, not per source. In quick mode nothing is
//! downloaded.

use vstd::prelude::*;

use crate::adapters::AdapterError;
use crate::download::dl_views;
use crate::download::Download;
use crate::download::DownloadV;

verus! {

pub open spec fn discovery_views(s: Seq<Result<Vec<Download>, AdapterError>>) -> Seq<
    Result<Seq<DownloadV>, AdapterError>,
> {
    s.map_values(
        |r: Result<Vec<Download>, AdapterError>|
            match r {
                Ok(v) => Ok(dl_views(v@)),
                Err(e) => Err::<Seq<DownloadV>, AdapterError>(e),
            },
    )
}

/// The descriptors of the successful discoveries, in source order; a failed
/// source contributes nothing and suppresses nothing.
pub open spec fn flatten_ok(s: Seq<Result<Seq<DownloadV>, AdapterError>>) -> Seq<DownloadV>
    decreases s.len(),
{
    if s.len() == 0 {
        Seq::empty()
    } else {
        (match s[0] {
            Ok(v) => v,
            Err(_) => Seq::empty(),
        }).add(flatten_ok(s.skip(1)))
    }
}

/// Gathers every successful source's descriptors for the one shared
/// downloader. A source whose discovery failed is skipped; in quick mode the
/// run is a dry one and nothing is collected.
pub fn collect_downloads(
    discoveries: Vec<Result<Vec<Download>, AdapterError>>,
    quick: bool,
) -> (r: Vec<Download>)
    ensures
        quick ==> dl_views(r@) == Seq::<DownloadV>::empty(),
        !quick ==> dl_views(r@) == flatten_ok(discovery_views(discoveries@)),
{
    let mut out: Vec<Download> = Vec::new();
    if quick {
        proof {
            assert(dl_views(out@) =~= Seq::<DownloadV>::empty());
        }
        return out;
    }
    let ghost whole = discovery_views(discoveries@);
    let mut rest = discoveries;
    proof {
        assert(dl_views(out@).add(flatten_ok(discovery_views(rest@))) =~= flatten_ok(whole));
    }
    while rest.len() > 0
        invariant
            dl_views(out@).add(flatten_ok(discovery_views(rest@))) == flatten_ok(whole),
        decreases rest@.len(),
    {
        let ghost dv = discovery_views(rest@);
        let ghost old_out = dl_views(out@);
        let head = rest.remove(0);
        proof {
            assert(discovery_views(rest@) =~= dv.skip(1));
        }
        match head {
            Ok(mut v) => {
                let ghost hv = dl_views(v@);
                proof {
                    assert(dv[0int] == Ok::<Seq<DownloadV>, AdapterError>(hv));
                    assert(flatten_ok(dv) == hv.add(flatten_ok(dv.skip(1))));
                }
                out.append(&mut v);
                proof {
                    assert(dl_views(out@) =~= old_out.add(hv));
                    assert(dl_views(out@).add(flatten_ok(discovery_views(rest@))) =~= old_out.add(
                        hv.add(flatten_ok(dv.skip(1))),
                    ));
                }
            },
            Err(_) => {
                proof {
                    assert(dv[0int] is Err);
                    assert(flatten_ok(dv) == Seq::<DownloadV>::empty().add(
                        flatten_ok(dv.skip(1)),
                    ));
                    assert(flatten_ok(dv) =~= flatten_ok(dv.skip(1)));
                }
            },
        }
    }
    proof {
        assert(discovery_views(rest@).len() == 0);
        assert(flatten_ok(discovery_views(rest@)) =~= Seq::<DownloadV>::empty());
        assert(dl_views(out@) =~= flatten_ok(whole));
    }
    out
}

/// Flattening the discoveries distributes over concatenation.
pub proof fn lemma_flatten_ok_add(
    a: Seq<Result<Seq<DownloadV>, AdapterError>>,
    b: Seq<Result<Seq<DownloadV>, AdapterError>>,
)
    ensures
        flatten_ok(a.add(b)) == flatten_ok(a).add(flatten_ok(b)),
    decreases a.len(),
{
    if a.len() == 0 {
        assert(a.add(b) =~= b);
        assert(flatten_ok(a) =~= Seq::<DownloadV>::empty());
        assert(flatten_ok(a).add(flatten_ok(b)) =~= flatten_ok(b));
    } else {
        assert(a.add(b).len() > 0);
        assert(a.add(b)[0int] == a[0int]);
        assert(a.add(b).skip(1) =~= a.skip(1).add(b));
        lemma_flatten_ok_add(a.skip(1), b);
        assert(flatten_ok(a.add(b)) =~= flatten_ok(a).add(flatten_ok(b)));
    }
}

/// One source's failure is isolated: the run's descriptors are exactly those
/// of the sources before it and after it, untouched.
pub proof fn lemma_failed_source_isolated(
    pre: Seq<Result<Seq<DownloadV>, AdapterError>>,
    e: AdapterError,
    post: Seq<Result<Seq<DownloadV>, AdapterError>>,
)
    ensures
        flatten_ok(pre.push(Err(e)).add(post)) == flatten_ok(pre).add(flatten_ok(post)),
{
    lemma_flatten_ok_add(pre.push(Err(e)), post);
    assert(pre.push(Err(e)) =~= pre.add(seq![Err::<Seq<DownloadV>, AdapterError>(e)]));
    lemma_flatten_ok_add(pre, seq![Err::<Seq<DownloadV>, AdapterError>(e)]);
    let single = seq![Err::<Seq<DownloadV>, AdapterError>(e)];
    assert(single.len() == 1);
    assert(single[0int] is Err);
    assert(single.skip(1) =~= Seq::<Result<Seq<DownloadV>, AdapterError>>::empty());
    assert(flatten_ok(single.skip(1)) =~= Seq::<DownloadV>::empty());
    assert(flatten_ok(single) =~= Seq::<DownloadV>::empty());
    assert(flatten_ok(pre).add(flatten_ok(single)) =~= flatten_ok(pre));
}

} // verus!
