//! Pen-travel metadata carried between handshake artifacts.
//!
//! The plotting consumer leaves a `plotdata`-tagged metadata element in the
//! finished artifact, describing where the pen stopped. The scheduler
//! carries those attributes forward into the next artifact, but resets the
//! travel and pause fields so the plotter repaints from the origin, over
//! all layers, with zero pause offsets.

use vstd::prelude::*;
use vstd::string::StringExecFns;

verus! {

/// The attribute set of a `plotdata` metadata element: named string
/// attributes, each name occurring at most once as the consumer writes it.
pub struct PenTravelMetadata {
    pub attrs: Vec<(String, String)>,
}

impl View for PenTravelMetadata {
    type V = Seq<(String, String)>;

    open spec fn view(&self) -> Seq<(String, String)> {
        self.attrs@
    }
}

/// Whether an attribute name is one of the fields that every fresh
/// artifact resets.
pub open spec fn is_reset_field(name: Seq<char>) -> bool {
    ||| name == "layer"@
    ||| name == "pause_dist"@
    ||| name == "pause_ref"@
}

/// The carried attributes with the reset fields removed.
pub open spec fn kept_attrs(s: Seq<(String, String)>) -> Seq<(String, String)>
    decreases s.len(),
{
    if s.len() == 0 {
        Seq::empty()
    } else {
        kept_attrs(s.drop_last()) + if is_reset_field(s.last().0@) {
            Seq::empty()
        } else {
            seq![s.last()]
        }
    }
}

/// The reset values: plot all layers, travel and pause from zero.
pub open spec fn reset_attrs_spec(s: Seq<(String, String)>) -> bool {
    &&& s.len() == 3
    &&& s[0].0@ == "layer"@ && s[0].1@ == "-1"@
    &&& s[1].0@ == "pause_dist"@ && s[1].1@ == "0"@
    &&& s[2].0@ == "pause_ref"@ && s[2].1@ == "0"@
}

/// How the metadata of a fresh artifact relates to the carried one:
/// every attribute the consumer wrote is kept, in order, except the
/// reset fields, and the three reset values close the list.
pub open spec fn fresh_plotdata_of(carried: Seq<(String, String)>, fresh: Seq<(String, String)>) -> bool {
    &&& fresh.len() == kept_attrs(carried).len() + 3
    &&& fresh.subrange(0, kept_attrs(carried).len() as int) == kept_attrs(carried)
    &&& reset_attrs_spec(fresh.subrange(kept_attrs(carried).len() as int, fresh.len() as int))
}

/// Builds the metadata element for a fresh artifact from the attributes
/// read out of the finished one: every attribute the consumer wrote is
/// carried forward unchanged, except that the layer selector and the two
/// pause fields are reset so the plot restarts from the origin, over all
/// layers.
pub fn plot_make_new_plotdata(carried: &PenTravelMetadata) -> (r: PenTravelMetadata)
    ensures
        fresh_plotdata_of(carried@, r@),
{
    let mut out: Vec<(String, String)> = Vec::new();
    let mut k: usize = 0;
    while k < carried.attrs.len()
        invariant
            k <= carried.attrs.len(),
            out@ == kept_attrs(carried.attrs@.take(k as int)),
        decreases carried.attrs.len() - k,
    {
        let pair = &carried.attrs[k];
        let keep = !(pair.0 == String::from_str("layer") || pair.0 == String::from_str("pause_dist")
            || pair.0 == String::from_str("pause_ref"));
        proof {
            assert(carried.attrs@.take(k as int + 1).drop_last() =~= carried.attrs@.take(k as int));
            assert(carried.attrs@.take(k as int + 1).last() == carried.attrs@[k as int]);
        }
        if keep {
            out.push((pair.0.clone(), pair.1.clone()));
        }
        k = k + 1;
    }
    proof {
        assert(carried.attrs@.take(carried.attrs@.len() as int) =~= carried.attrs@);
    }
    out.push((String::from_str("layer"), String::from_str("-1")));
    out.push((String::from_str("pause_dist"), String::from_str("0")));
    out.push((String::from_str("pause_ref"), String::from_str("0")));
    proof {
        assert(out@.subrange(0, kept_attrs(carried@).len() as int) =~= kept_attrs(carried@));
    }
    PenTravelMetadata { attrs: out }
}

} // verus!
