use vstd::prelude::*;
use vstd::string::StringExecFns;

verus! {

/// The items one after another, each followed by a line break.
pub open spec fn lines(items: Seq<Seq<char>>) -> Seq<char>
    decreases items.len(),
{
    if items.len() == 0 {
        Seq::empty()
    } else {
        lines(items.drop_last()) + items.last() + "\n"@
    }
}

/// Writes each item on a line of its own.
pub fn display_iterable(items: &Vec<String>) -> (r: String)
    ensures
        r@ == lines(items@.map_values(|s: String| s@)),
{
    let ghost all = items@.map_values(|s: String| s@);
    let mut buf = String::new();
    let mut i: usize = 0;
    while i < items.len()
        invariant
            i <= items@.len(),
            all == items@.map_values(|s: String| s@),
            buf@ == lines(all.take(i as int)),
        decreases items@.len() - i,
    {
        buf.append(items[i].as_str());
        buf.append("\n");
        assert(all.take(i + 1 as int).drop_last() =~= all.take(i as int));
        i = i + 1;
    }
    assert(all.take(items@.len() as int) =~= all);
    buf
}

} // verus!
