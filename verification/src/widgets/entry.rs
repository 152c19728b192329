//! State of a multi-field entry form: any number of editable fields, an
//! active-field index that can move and wrap, and a cursor position.

use vstd::prelude::*;
use vstd::string::StringExecFns;

verus! {

/// The state behind a multi-field entry widget: the entered fields, which
/// of them is active, and where the cursor stands.
#[derive(Clone)]
pub struct EntryState {
    fields: Vec<String>,
    active_field: usize,
    cursor_pos: Option<(u16, u16)>,
}

impl EntryState {
    /// The entered fields as sequences of characters.
    pub closed spec fn fields_view(&self) -> Seq<Seq<char>> {
        self.fields.deep_view()
    }

    /// The index of the active field.
    pub closed spec fn active(&self) -> int {
        self.active_field as int
    }

    /// The cursor position, if one is shown.
    pub closed spec fn cursor(&self) -> Option<(u16, u16)> {
        self.cursor_pos
    }

    /// The active field always names one of the fields.
    pub open spec fn wf(&self) -> bool {
        0 <= self.active() < self.fields_view().len()
    }

    /// `size` empty fields, the first one active, no cursor shown.
    pub fn new(size: usize) -> (r: Self)
        requires
            size >= 1,
        ensures
            r.wf(),
            r.fields_view().len() == size,
            forall|j: int| 0 <= j < size ==> r.fields_view()[j] == Seq::<char>::empty(),
            r.active() == 0,
            r.cursor() is None,
    {
        let mut fields: Vec<String> = Vec::new();
        let mut i: usize = 0;
        while i < size
            invariant
                i <= size,
                fields@.len() == i,
                forall|j: int| 0 <= j < i ==> fields@[j]@ == Seq::<char>::empty(),
            decreases size - i,
        {
            fields.push(String::new());
            i = i + 1;
        }
        let r = EntryState { fields, active_field: 0, cursor_pos: None };
        proof {
            assert forall|j: int| 0 <= j < size implies r.fields_view()[j]
                == Seq::<char>::empty() by {
                assert(r.fields.deep_view()[j] == r.fields@[j]@);
            }
        }
        r
    }

    /// Appends a character to the active field.
    pub fn push(&mut self, charr: char)
        requires
            old(self).wf(),
        ensures
            final(self).wf(),
            final(self).fields_view() == old(self).fields_view().update(
                old(self).active(),
                old(self).fields_view()[old(self).active()].push(charr),
            ),
            final(self).active() == old(self).active(),
            final(self).cursor() == old(self).cursor(),
    {
        let mut field = self.fields[self.active_field].clone();
        field.push(charr);
        self.fields.set(self.active_field, field);
        proof {
            assert(self.fields_view() =~= old(self).fields_view().update(
                old(self).active(),
                old(self).fields_view()[old(self).active()].push(charr),
            ));
        }
    }

    /// Appends a string to the active field.
    pub fn push_str(&mut self, string: &str)
        requires
            old(self).wf(),
        ensures
            final(self).wf(),
            final(self).fields_view() == old(self).fields_view().update(
                old(self).active(),
                old(self).fields_view()[old(self).active()] + string@,
            ),
            final(self).active() == old(self).active(),
            final(self).cursor() == old(self).cursor(),
    {
        let mut field = self.fields[self.active_field].clone();
        field.append(string);
        self.fields.set(self.active_field, field);
        proof {
            assert(self.fields_view() =~= old(self).fields_view().update(
                old(self).active(),
                old(self).fields_view()[old(self).active()] + string@,
            ));
        }
    }

    /// Replaces the active field.
    pub fn set_field(&mut self, field: String)
        requires
            old(self).wf(),
        ensures
            final(self).wf(),
            final(self).fields_view() == old(self).fields_view().update(
                old(self).active(),
                field@,
            ),
            final(self).active() == old(self).active(),
            final(self).cursor() == old(self).cursor(),
    {
        let ghost fv = field@;
        self.fields.set(self.active_field, field);
        proof {
            assert(self.fields_view() =~= old(self).fields_view().update(
                old(self).active(),
                fv,
            ));
        }
    }

    /// A copy of the field at `idx`.
    pub fn get_field(&self, idx: usize) -> (r: String)
        requires
            idx < self.fields_view().len(),
        ensures
            r@ == self.fields_view()[idx as int],
    {
        self.fields[idx].clone()
    }

    /// The active field.
    pub fn get_active_field(&self) -> (r: &String)
        requires
            self.wf(),
        ensures
            r@ == self.fields_view()[self.active()],
    {
        &self.fields[self.active_field]
    }

    /// Makes the field at `idx` the active one.
    pub fn set_active_field(&mut self, idx: usize)
        requires
            idx < old(self).fields_view().len(),
        ensures
            final(self).wf(),
            final(self).active() == idx,
            final(self).fields_view() == old(self).fields_view(),
            final(self).cursor() == old(self).cursor(),
    {
        self.active_field = idx;
    }

    /// A copy of every field.
    pub fn get_fields(&self) -> (r: Vec<String>)
        ensures
            r.deep_view() == self.fields_view(),
    {
        let mut out: Vec<String> = Vec::new();
        let n = self.fields.len();
        let mut i: usize = 0;
        while i < n
            invariant
                n == self.fields@.len(),
                i <= n,
                out@.len() == i,
                forall|j: int| 0 <= j < i ==> out@[j]@ == self.fields@[j]@,
            decreases n - i,
        {
            out.push(self.fields[i].clone());
            i = i + 1;
        }
        proof {
            assert forall|j: int| 0 <= j < n implies out.deep_view()[j]
                == self.fields_view()[j] by {
                assert(out@[j]@ == self.fields@[j]@);
            }
            assert(out.deep_view() =~= self.fields_view());
        }
        out
    }

    /// Moves the active field one to the right, wrapping to the first
    /// after the last.
    pub fn next(&mut self)
        requires
            old(self).wf(),
        ensures
            final(self).wf(),
            final(self).active() == (if old(self).active() + 1
                == old(self).fields_view().len() {
                0int
            } else {
                old(self).active() + 1
            }),
            final(self).fields_view() == old(self).fields_view(),
            final(self).cursor() == old(self).cursor(),
    {
        let n = self.fields.len();
        if self.active_field + 1 == n {
            self.active_field = 0;
        } else {
            self.active_field = self.active_field + 1;
        }
    }

    /// Moves the active field one to the left, wrapping to the last
    /// before the first.
    pub fn prev(&mut self)
        requires
            old(self).wf(),
        ensures
            final(self).wf(),
            final(self).active() == (if old(self).active() == 0 {
                old(self).fields_view().len() - 1
            } else {
                old(self).active() - 1
            }),
            final(self).fields_view() == old(self).fields_view(),
            final(self).cursor() == old(self).cursor(),
    {
        if self.active_field == 0 {
            self.active_field = self.fields.len() - 1;
        } else {
            self.active_field = self.active_field - 1;
        }
    }

    /// Appends a fresh field holding `default_value` and makes it active.
    pub fn new_field(&mut self, default_value: String)
        requires
            old(self).wf(),
        ensures
            final(self).wf(),
            final(self).fields_view() == old(self).fields_view().push(default_value@),
            final(self).active() == old(self).fields_view().len(),
            final(self).cursor() == old(self).cursor(),
    {
        let ghost fv = default_value@;
        self.fields.push(default_value);
        self.active_field = self.fields.len() - 1;
        proof {
            assert(self.fields_view() =~= old(self).fields_view().push(fv));
        }
    }

    /// Removes the last character of the active field; an empty field
    /// stays empty.
    pub fn pop(&mut self)
        requires
            old(self).wf(),
        ensures
            final(self).wf(),
            old(self).fields_view()[old(self).active()].len() == 0 ==> final(self).fields_view()
                =~= old(self).fields_view(),
            old(self).fields_view()[old(self).active()].len() > 0 ==> final(self).fields_view()
                == old(self).fields_view().update(
                old(self).active(),
                old(self).fields_view()[old(self).active()].drop_last(),
            ),
            final(self).active() == old(self).active(),
            final(self).cursor() == old(self).cursor(),
    {
        let mut field = self.fields[self.active_field].clone();
        field.pop();
        self.fields.set(self.active_field, field);
        proof {
            if old(self).fields_view()[old(self).active()].len() == 0 {
                assert(self.fields_view() =~= old(self).fields_view());
            } else {
                assert(self.fields_view() =~= old(self).fields_view().update(
                    old(self).active(),
                    old(self).fields_view()[old(self).active()].drop_last(),
                ));
            }
        }
    }

    /// Places the cursor at the origin.
    pub fn show_cursor(self) -> (r: Self)
        ensures
            r.fields_view() == self.fields_view(),
            r.active() == self.active(),
            r.cursor() == Some((0u16, 0u16)),
    {
        let mut s = self;
        s.cursor_pos = Some((0, 0));
        s
    }

    /// Hides the cursor.
    pub fn hide_cursor(self) -> (r: Self)
        ensures
            r.fields_view() == self.fields_view(),
            r.active() == self.active(),
            r.cursor() is None,
    {
        let mut s = self;
        s.cursor_pos = None;
        s
    }

    /// The cursor position, if one is shown.
    pub fn get_cursor(&self) -> (r: Option<(u16, u16)>)
        ensures
            r == self.cursor(),
    {
        self.cursor_pos
    }
}

impl Default for EntryState {
    /// One empty field, active, with the cursor at the origin.
    fn default() -> (r: Self)
        ensures
            r.wf(),
            r.fields_view() =~= seq![Seq::<char>::empty()],
            r.active() == 0,
            r.cursor() == Some((0u16, 0u16)),
    {
        let mut fields: Vec<String> = Vec::new();
        fields.push(String::new());
        EntryState { fields, active_field: 0, cursor_pos: Some((0, 0)) }
    }
}

} // verus!
