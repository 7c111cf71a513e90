use vstd::prelude::*;

verus! {

/// One named, ordered partition of a table's data: a sequence of raw
/// row-bytes whose first row is the header. Within one transfer,
/// partition names are unique, and a partition is consumed at most once,
/// start to end, in order.
#[derive(Clone, Debug)]
pub struct CsvStream {
    pub name: String,
    pub rows: Vec<Vec<u8>>,
}

/// The mathematical value of a `CsvStream`.
pub struct CsvStreamModel {
    pub name: Seq<char>,
    pub rows: Seq<Seq<u8>>,
}

impl View for CsvStream {
    type V = CsvStreamModel;

    open spec fn view(&self) -> CsvStreamModel {
        CsvStreamModel { name: self.name@, rows: self.rows.deep_view() }
    }
}

impl DeepView for CsvStream {
    type V = CsvStreamModel;

    open spec fn deep_view(&self) -> CsvStreamModel {
        self@
    }
}

/// A partition's rows without its header row.
pub open spec fn spec_body_rows(rows: Seq<Seq<u8>>) -> Seq<Seq<u8>> {
    if rows.len() == 0 {
        rows
    } else {
        rows.skip(1)
    }
}

/// The rows of a concatenation of partitions: the first partition whole,
/// every later one with its header row skipped.
pub open spec fn spec_concat_rows(streams: Seq<CsvStreamModel>) -> Seq<Seq<u8>>
    decreases streams.len(),
{
    if streams.len() == 0 {
        Seq::empty()
    } else {
        spec_concat_rows(streams.drop_last()) + (if streams.len() == 1 {
            streams[0].rows
        } else {
            spec_body_rows(streams.last().rows)
        })
    }
}

/// Concatenate partitions into one ordered stream, keeping the first
/// partition's header and skipping the headers of every later one. Within
/// each partition the row order is preserved end-to-end.
pub fn concatenate_csv_streams(streams: Vec<CsvStream>) -> (r: CsvStream)
    ensures
        r@.name == "data"@,
        r@.rows == spec_concat_rows(streams.deep_view()),
{
    let ghost all = streams.deep_view();
    let mut rows: Vec<Vec<u8>> = Vec::new();
    let n = streams.len();
    let mut rest = streams;
    let mut first = true;
    let ghost mut taken: int = 0;
    while rest.len() > 0
        invariant
            0 <= taken <= all.len(),
            rest.deep_view().len() == all.len() - taken,
            forall|j: int| 0 <= j < rest.deep_view().len() ==> #[trigger] rest.deep_view()[j]
                == all[taken + j],
            first <==> taken == 0,
            rows.deep_view() =~= spec_concat_rows(all.take(taken)),
        decreases rest.len(),
    {
        let ghost prev_rows = rows.deep_view();
        let ghost rv = rest@;
        let ghost rdv = rest.deep_view();
        let mut s = rest.remove(0);
        proof {
            assert(s.deep_view() == rdv[0]);
            assert(s.deep_view() == all[taken]);
            assert(rest@ =~= rv.subrange(1, rv.len() as int));
            assert forall|j: int| 0 <= j < rest.deep_view().len() implies #[trigger] rest
                .deep_view()[j] == all[taken + 1 + j] by {
                assert(rest@[j] == rv[j + 1]);
                assert(rest.deep_view()[j] == rv[j + 1].deep_view());
                assert(rv[j + 1].deep_view() == rdv[j + 1]);
            }
        }
        if first {
            rows.append(&mut s.rows);
            first = false;
        } else {
            if s.rows.len() > 0 {
                let mut body = s.rows;
                let _header = body.remove(0);
                proof {
                    assert(body.deep_view() =~= spec_body_rows(all[taken].rows));
                }
                rows.append(&mut body);
            } else {
                proof {
                    assert(spec_body_rows(all[taken].rows) =~= Seq::<Seq<u8>>::empty());
                }
            }
        }
        proof {
            assert(all.take(taken + 1).drop_last() =~= all.take(taken));
            assert(all.take(taken + 1).last() == all[taken]);
            if taken == 0 {
                assert(all.take(1).len() == 1);
                assert(rows.deep_view() =~= prev_rows + all[0].rows);
                assert(spec_concat_rows(all.take(0)) =~= Seq::<Seq<u8>>::empty());
            }
            assert(rows.deep_view() =~= spec_concat_rows(all.take(taken + 1)));
            taken = taken + 1;
        }
    }
    proof {
        assert(all.take(taken) =~= all);
    }
    CsvStream { name: String::from_str("data"), rows }
}

} // verus!
