//! State of a text-entry box: a row of editable fields, one of them
//! active, and a cursor position the renderer reads back.

use vstd::prelude::*;

verus! {

/// The state behind an entry widget: the entered fields, which of them is
/// active, and where the cursor stands.
#[derive(Clone)]
pub struct EntryState {
    fields: Vec<String>,
    active_field: usize,
    cursor_pos: Option<(u16, u16)>,
}

impl EntryState {
    /// The entered fields as sequences of characters.
    pub closed spec fn fields_view(&self) -> Seq<Seq<char>> {
        self.fields.deep_view()
    }

    /// The index of the active field.
    pub closed spec fn active(&self) -> int {
        self.active_field as int
    }

    /// The cursor position, if one is shown.
    pub closed spec fn cursor(&self) -> Option<(u16, u16)> {
        self.cursor_pos
    }

    /// The active field always names one of the fields.
    pub open spec fn wf(&self) -> bool {
        0 <= self.active() < self.fields_view().len()
    }

    /// One empty field, active, with the cursor at the origin.
    pub fn default() -> (r: Self)
        ensures
            r.wf(),
            r.fields_view() =~= seq![Seq::<char>::empty()],
            r.active() == 0,
            r.cursor() == Some((0u16, 0u16)),
    {
        let mut fields: Vec<String> = Vec::new();
        fields.push(String::new());
        EntryState { fields, active_field: 0, cursor_pos: Some((0, 0)) }
    }

    /// Appends a character to the active field.
    pub fn push(&mut self, charr: char)
        requires
            old(self).wf(),
        ensures
            final(self).wf(),
            final(self).fields_view() == old(self).fields_view().update(
                old(self).active(),
                old(self).fields_view()[old(self).active()].push(charr),
            ),
            final(self).active() == old(self).active(),
            final(self).cursor() == old(self).cursor(),
    {
        let mut field = self.fields[self.active_field].clone();
        field.push(charr);
        self.fields.set(self.active_field, field);
        proof {
            assert(self.fields_view() =~= old(self).fields_view().update(
                old(self).active(),
                old(self).fields_view()[old(self).active()].push(charr),
            ));
        }
    }

    /// A copy of the field at `index`.
    pub fn get_field(&self, index: usize) -> (r: String)
        requires
            index < self.fields_view().len(),
        ensures
            r@ == self.fields_view()[index as int],
    {
        self.fields[index].clone()
    }

    /// The active field.
    pub fn get_active_field(&self) -> (r: &String)
        requires
            self.wf(),
        ensures
            r@ == self.fields_view()[self.active()],
    {
        &self.fields[self.active_field]
    }

    /// A copy of every field.
    pub fn get_fields(&self) -> (r: Vec<String>)
        ensures
            r.deep_view() == self.fields_view(),
    {
        let mut out: Vec<String> = Vec::new();
        let n = self.fields.len();
        let mut i: usize = 0;
        while i < n
            invariant
                n == self.fields@.len(),
                i <= n,
                out@.len() == i,
                forall|j: int| 0 <= j < i ==> out@[j]@ == self.fields@[j]@,
            decreases n - i,
        {
            out.push(self.fields[i].clone());
            i = i + 1;
        }
        proof {
            assert forall|j: int| 0 <= j < n implies out.deep_view()[j]
                == self.fields_view()[j] by {
                assert(out@[j]@ == self.fields@[j]@);
            }
            assert(out.deep_view() =~= self.fields_view());
        }
        out
    }

    /// Removes the last character of the active field; an empty field
    /// stays empty.
    pub fn pop(&mut self)
        requires
            old(self).wf(),
        ensures
            final(self).wf(),
            old(self).fields_view()[old(self).active()].len() == 0 ==> final(self).fields_view()
                =~= old(self).fields_view(),
            old(self).fields_view()[old(self).active()].len() > 0 ==> final(self).fields_view()
                == old(self).fields_view().update(
                old(self).active(),
                old(self).fields_view()[old(self).active()].drop_last(),
            ),
            final(self).active() == old(self).active(),
            final(self).cursor() == old(self).cursor(),
    {
        let mut field = self.fields[self.active_field].clone();
        field.pop();
        self.fields.set(self.active_field, field);
        proof {
            if old(self).fields_view()[old(self).active()].len() == 0 {
                assert(self.fields_view() =~= old(self).fields_view());
            } else {
                assert(self.fields_view() =~= old(self).fields_view().update(
                    old(self).active(),
                    old(self).fields_view()[old(self).active()].drop_last(),
                ));
            }
        }
    }

    /// Places the cursor at the origin.
    pub fn show_cursor(self) -> (r: Self)
        ensures
            r.fields_view() == self.fields_view(),
            r.active() == self.active(),
            r.cursor() == Some((0u16, 0u16)),
    {
        let mut s = self;
        s.cursor_pos = Some((0, 0));
        s
    }

    /// Resets the cursor to the origin, like [`EntryState::show_cursor`].
    pub fn hide_cursor(self) -> (r: Self)
        ensures
            r.fields_view() == self.fields_view(),
            r.active() == self.active(),
            r.cursor() == Some((0u16, 0u16)),
    {
        let mut s = self;
        s.cursor_pos = Some((0, 0));
        s
    }

    /// The cursor position, if one is shown.
    pub fn get_cursor(&self) -> (r: Option<(u16, u16)>)
        ensures
            r == self.cursor(),
    {
        self.cursor_pos
    }

    /// Replaces the active field.
    pub fn set_field(&mut self, field: String)
        requires
            old(self).wf(),
        ensures
            final(self).wf(),
            final(self).fields_view() == old(self).fields_view().update(
                old(self).active(),
                field@,
            ),
            final(self).active() == old(self).active(),
            final(self).cursor() == old(self).cursor(),
    {
        let ghost fv = field@;
        self.fields.set(self.active_field, field);
        proof {
            assert(self.fields_view() =~= old(self).fields_view().update(
                old(self).active(),
                fv,
            ));
        }
    }
}

} // verus!
