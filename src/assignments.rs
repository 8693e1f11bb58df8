//! The form that assigns students to a project, and how its list of RCS ids
//! is read.
use vstd::prelude::*;

use crate::text::{is_white_space, white_space};

verus! {

/// The ids that a comma separated list stands for: white space is dropped
/// wherever it stands, and the rest is split at each comma. The list has one
/// id more than it has commas, so an empty text gives one empty id.
pub open spec fn split_ids(s: Seq<char>) -> Seq<Seq<char>>
    decreases s.len(),
{
    if s.len() == 0 {
        seq![Seq::<char>::empty()]
    } else {
        let prev = split_ids(s.drop_last());
        let c = s.last();
        if white_space(c) {
            prev
        } else if c == ',' {
            prev.push(Seq::<char>::empty())
        } else {
            prev.update(prev.len() - 1, prev.last().push(c))
        }
    }
}

/// The data of the project assignment form.
#[derive(Debug, Clone, PartialEq, Eq)]
pub struct FormData {
    /// The project that the students are assigned to.
    pub project_id: Option<i64>,
    /// The students' RCS ids, separated by commas.
    pub rcs_ids: Option<String>,
}

impl FormData {
    /// The text of the RCS id list, empty where the form had none.
    pub open spec fn ids_text(&self) -> Seq<char> {
        match self.rcs_ids {
            Some(s) => s@,
            None => Seq::<char>::empty(),
        }
    }

    /// The RCS ids of the form: its list, without white space, split at
    /// each comma.
    pub fn rcs_id_list(&self) -> (r: Vec<String>)
        ensures
            r@.map_values(|p: String| p@) == split_ids(self.ids_text()),
    {
        let empty = String::new();
        let text: &str = match &self.rcs_ids {
            Some(s) => s.as_str(),
            None => empty.as_str(),
        };
        let n = text.unicode_len();
        let mut pieces: Vec<String> = Vec::new();
        let mut cur = String::new();
        let mut i: usize = 0;
        while i < n
            invariant
                n == text@.len(),
                text@ == self.ids_text(),
                i <= n,
                pieces@.map_values(|p: String| p@).push(cur@) == split_ids(text@.subrange(0, i as int)),
            decreases n - i,
        {
            let c = text.get_char(i);
            let ghost prefix = text@.subrange(0, i as int);
            let ghost next = text@.subrange(0, i + 1);
            assert(next.drop_last() == prefix);
            assert(next.last() == c);
            let ghost before = pieces@.map_values(|p: String| p@);
            let ghost old_cur = cur@;
            if is_white_space(c) {
            } else if c == ',' {
                pieces.push(cur);
                cur = String::new();
                assert(pieces@.map_values(|p: String| p@) =~= before.push(old_cur));
            } else {
                cur.append(text.substring_char(i, i + 1));
                assert(cur@ =~= old_cur.push(c));
                assert(before.push(cur@) =~= before.push(old_cur).update(
                    before.len() as int,
                    old_cur.push(c),
                ));
            }
            i = i + 1;
        }
        assert(text@.subrange(0, n as int) == text@);
        pieces.push(cur);
        pieces
    }
}

} // verus!
