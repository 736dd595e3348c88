//! The per-declaration attribute collection and usage tracker.
//!
//! All recognized-namespace nodes attached to one declaration are collected
//! into an [`Attrs`] value, each item under its name with a `used` flag.
//! Extraction calls (`get_optional`, `get_required`, `get_list`) mark what
//! they read; [`Attrs::ensure_used`] then fails on any entry that no call
//! ever read, which is how unknown attributes are rejected.

use vstd::prelude::*;
use crate::error::{Error, ErrorV, FmResult, res_dv};
use crate::from_meta::FromMeta;
use crate::meta::{Meta, MetaV, NestedMeta, NestedMetaV};
use crate::util::string_eq_str;

verus! {

/// One tracked attribute entry: a node, its name, and whether an extraction
/// call has read it.
pub struct Attr {
    pub meta: Meta,
    pub name: String,
    pub used: bool,
}

/// Mathematical image of [`Attr`].
pub struct AttrV {
    pub meta: MetaV,
    pub name: Seq<char>,
    pub used: bool,
}

impl DeepView for Attr {
    type V = AttrV;

    open spec fn deep_view(&self) -> AttrV {
        AttrV { meta: self.meta.deep_view(), name: self.name@, used: self.used }
    }
}

/// The ordered attribute entries of a single declaration.
pub struct Attrs {
    pub attrs: Vec<Attr>,
}

impl DeepView for Attrs {
    type V = Seq<AttrV>;

    open spec fn deep_view(&self) -> Seq<AttrV> {
        self.attrs.deep_view()
    }
}

/// What collecting the items of one recognized-namespace list yields: one
/// entry per item, in order; a raw literal or a multi-segment path is
/// rejected.
pub open spec fn s_entries_of_items(items: Seq<NestedMetaV>) -> Result<Seq<AttrV>, ErrorV>
    decreases items.len(),
{
    if items.len() == 0 {
        Ok(Seq::empty())
    } else {
        match items[0] {
            NestedMetaV::Lit(l) => Err(ErrorV::UnexpectedLitType(l)),
            NestedMetaV::Meta(m) => match m.path().single_ident() {
                None => Err(ErrorV::UnexpectedType("path"@)),
                Some(name) => match s_entries_of_items(items.drop_first()) {
                    Err(e) => Err(e),
                    Ok(rest) => Ok(
                        seq![AttrV { meta: m, name: name, used: false }] + rest,
                    ),
                },
            },
        }
    }
}

/// What collecting a whole node sequence yields: nodes outside the
/// recognized namespace are skipped; a recognized node must be a list, and
/// contributes one entry per item.
pub open spec fn s_collect(metas: Seq<MetaV>, namespace: Seq<char>) -> Result<Seq<AttrV>, ErrorV>
    decreases metas.len(),
{
    if metas.len() == 0 {
        Ok(Seq::empty())
    } else {
        let head: Result<Seq<AttrV>, ErrorV> = if metas[0].is_named(namespace) {
            match metas[0] {
                MetaV::List(ml) => s_entries_of_items(ml.nested),
                _ => Err(ErrorV::UnexpectedType("Expected meta list."@)),
            }
        } else {
            Ok(Seq::empty())
        };
        match head {
            Err(e) => Err(e),
            Ok(hs) => match s_collect(metas.drop_first(), namespace) {
                Err(e) => Err(e),
                Ok(rest) => Ok(hs + rest),
            },
        }
    }
}

/// What one `get_optional` call yields and leaves behind: the first entry of
/// the given name is extracted (and marked used whether or not extraction
/// succeeds); absence yields `None`.
pub open spec fn s_get_optional<T: FromMeta>(attrs: Seq<AttrV>, name: Seq<char>) -> (
    Seq<AttrV>,
    Result<Option<T::V>, ErrorV>,
)
    decreases attrs.len(),
{
    if attrs.len() == 0 {
        (attrs, Ok(None))
    } else if attrs[0].name == name {
        let marked = AttrV { meta: attrs[0].meta, name: attrs[0].name, used: true };
        let res = match T::s_from_meta(attrs[0].meta) {
            Ok(v) => Ok(Some(v)),
            Err(e) => Err(e),
        };
        (seq![marked] + attrs.drop_first(), res)
    } else {
        let rec = s_get_optional::<T>(attrs.drop_first(), name);
        (seq![attrs[0]] + rec.0, rec.1)
    }
}

/// What one `get_list` call yields and leaves behind: every entry of the
/// given name contributes its items, in order; the first failing entry stops
/// the call and is left unmarked.
pub open spec fn s_get_list<T: FromMeta>(attrs: Seq<AttrV>, name: Seq<char>) -> (
    Seq<AttrV>,
    Result<Seq<T::V>, ErrorV>,
)
    decreases attrs.len(),
{
    if attrs.len() == 0 {
        (attrs, Ok(Seq::empty()))
    } else if attrs[0].name == name {
        match <Vec<T> as FromMeta>::s_from_meta(attrs[0].meta) {
            Err(e) => (attrs, Err(e)),
            Ok(items) => {
                let marked = AttrV { meta: attrs[0].meta, name: attrs[0].name, used: true };
                let rec = s_get_list::<T>(attrs.drop_first(), name);
                match rec.1 {
                    Err(e) => (seq![marked] + rec.0, Err(e)),
                    Ok(more) => (seq![marked] + rec.0, Ok(items + more)),
                }
            },
        }
    } else {
        let rec = s_get_list::<T>(attrs.drop_first(), name);
        (seq![attrs[0]] + rec.0, rec.1)
    }
}

/// What one `get_required` call yields: `get_optional`, with absence turned
/// into a "missing field" failure.
pub open spec fn s_get_required<T: FromMeta>(attrs: Seq<AttrV>, name: Seq<char>) -> (
    Seq<AttrV>,
    Result<T::V, ErrorV>,
) {
    let g = s_get_optional::<T>(attrs, name);
    (
        g.0,
        match g.1 {
            Ok(Some(v)) => Ok(v),
            Ok(None) => Err(ErrorV::MissingField(name)),
            Err(e) => Err(e),
        },
    )
}

/// Whether every entry has been read.
pub open spec fn s_all_used(attrs: Seq<AttrV>) -> bool {
    forall|i: int| 0 <= i < attrs.len() ==> (#[trigger] attrs[i]).used
}

/// The first unread entry, if any.
pub open spec fn s_first_unused(attrs: Seq<AttrV>) -> Option<AttrV>
    decreases attrs.len(),
{
    if attrs.len() == 0 {
        None
    } else if !attrs[0].used {
        Some(attrs[0])
    } else {
        s_first_unused(attrs.drop_first())
    }
}

/// No entry is unread exactly when every entry is read.
pub proof fn lemma_first_unused_none(attrs: Seq<AttrV>)
    ensures
        (s_first_unused(attrs) is None) <==> s_all_used(attrs),
    decreases attrs.len(),
{
    if attrs.len() > 0 {
        lemma_first_unused_none(attrs.drop_first());
        if attrs[0].used && s_all_used(attrs.drop_first()) {
            assert forall|i: int| 0 <= i < attrs.len() implies (#[trigger] attrs[i]).used by {
                if i > 0 {
                    assert(attrs.drop_first()[i - 1] == attrs[i]);
                }
            }
        }
        if s_all_used(attrs) {
            let dropped = attrs.drop_first();
            assert forall|i: int| 0 <= i < dropped.len() implies (#[trigger] dropped[i]).used by {
                assert(dropped[i] == attrs[i + 1]);
            }
        }
    }
}

/// Closing the collection: success exactly when every entry was read, and
/// otherwise the first unread entry named.
pub open spec fn s_close(attrs: Seq<AttrV>) -> Result<(), ErrorV> {
    match s_first_unused(attrs) {
        None => Ok(()),
        Some(a) => Err(ErrorV::UnknownField(a.name)),
    }
}

/// Collects the entries of one recognized-namespace list into `out`.
fn collect_items(items: &Vec<NestedMeta>, out: &mut Vec<Attr>) -> (r: FmResult<()>)
    ensures
        match r {
            Ok(_) => s_entries_of_items(items.deep_view()) matches Ok(es) && final(out).deep_view()
                == old(out).deep_view() + es,
            Err(e) => s_entries_of_items(items.deep_view()) == Err::<Seq<AttrV>, ErrorV>(
                e.deep_view(),
            ),
        },
{
    let ghost base = old(out).deep_view();
    let ghost full = items.deep_view();
    let mut j: usize = 0;
    proof {
        assert(full.skip(0) =~= full);
        assert(out.deep_view().skip(base.len() as int) =~= Seq::<AttrV>::empty());
    }
    while j < items.len()
        invariant
            0 <= j <= items@.len(),
            items@.len() == full.len(),
            full == items.deep_view(),
            out.deep_view().len() >= base.len(),
            out.deep_view().take(base.len() as int) == base,
            s_entries_of_items(full) == match s_entries_of_items(full.skip(j as int)) {
                Err(e) => Err::<Seq<AttrV>, ErrorV>(e),
                Ok(hs) => Ok::<Seq<AttrV>, ErrorV>(
                    out.deep_view().skip(base.len() as int) + hs,
                ),
            },
        decreases items@.len() - j,
    {
        let ghost tail = full.skip(j as int);
        proof {
            assert(tail[0] == full[j as int]);
            assert(tail.drop_first() =~= full.skip(j as int + 1));
        }
        match &items[j] {
            NestedMeta::Lit(l) => {
                return Err(Error::unexpected_lit_type(l));
            },
            NestedMeta::Meta(m) => {
                match m.path().single_ident() {
                    None => {
                        return Err(Error::unexpected_type("path"));
                    },
                    Some(ident) => {
                        let name = ident.clone();
                        let ghost pre = out.deep_view();
                        let ghost added = pre.skip(base.len() as int);
                        out.push(Attr { meta: m.duplicate(), name, used: false });
                        proof {
                            let entry = AttrV {
                                meta: m.deep_view(),
                                name: ident@,
                                used: false,
                            };
                            assert(out.deep_view() =~= pre.push(entry));
                            assert(out.deep_view().take(base.len() as int) =~= base);
                            assert(out.deep_view().skip(base.len() as int) =~= added.push(
                                entry,
                            ));
                            if s_entries_of_items(full.skip(j as int + 1)) is Ok {
                                let hs = s_entries_of_items(full.skip(j as int + 1))->Ok_0;
                                assert(added + (seq![entry] + hs) =~= added.push(entry) + hs);
                            }
                        }
                    },
                }
            },
        }
        j = j + 1;
    }
    proof {
        assert(full.skip(items@.len() as int) =~= Seq::<NestedMetaV>::empty());
        assert(out.deep_view().skip(base.len() as int) + Seq::<AttrV>::empty()
            =~= out.deep_view().skip(base.len() as int));
        assert(base + out.deep_view().skip(base.len() as int) =~= out.deep_view());
    }
    Ok(())
}

impl Attrs {
    /// Collects the recognized-namespace entries of a node sequence.
    ///
    /// A node outside the namespace is skipped silently; one inside it must
    /// be a list, and each of its items becomes one entry, named by its
    /// single-identifier head, with its `used` flag clear.
    pub fn from_metas(metas: &Vec<Meta>, namespace: &str) -> (r: FmResult<Attrs>)
        ensures
            match r {
                Ok(attrs) => Ok::<Seq<AttrV>, ErrorV>(attrs.deep_view()) == s_collect(
                    metas.deep_view(),
                    namespace@,
                ),
                Err(e) => Err::<Seq<AttrV>, ErrorV>(e.deep_view()) == s_collect(
                    metas.deep_view(),
                    namespace@,
                ),
            },
    {
        let ghost full = metas.deep_view();
        let mut out: Vec<Attr> = Vec::new();
        let mut i: usize = 0;
        proof {
            assert(full.skip(0) =~= full);
            assert(out.deep_view() + Seq::<AttrV>::empty() =~= out.deep_view());
        }
        while i < metas.len()
            invariant
                0 <= i <= metas@.len(),
                metas@.len() == full.len(),
                full == metas.deep_view(),
                s_collect(full, namespace@) == match s_collect(full.skip(i as int), namespace@) {
                    Ok(rest) => Ok::<Seq<AttrV>, ErrorV>(out.deep_view() + rest),
                    Err(e) => Err::<Seq<AttrV>, ErrorV>(e),
                },
            decreases metas@.len() - i,
        {
            let ghost tail = full.skip(i as int);
            proof {
                assert(tail[0] == full[i as int]);
                assert(tail.drop_first() =~= full.skip(i as int + 1));
            }
            let meta = &metas[i];
            if meta.is(namespace) {
                match meta {
                    Meta::List(ml) => {
                        let ghost pre = out.deep_view();
                        proof {
                            crate::meta::lemma_vec_nested_dv(ml.nested);
                        }
                        match collect_items(&ml.nested, &mut out) {
                            Err(e) => {
                                return Err(e);
                            },
                            Ok(_) => {
                                proof {
                                    let hs = s_entries_of_items(ml.nested.deep_view())->Ok_0;
                                    if s_collect(full.skip(i as int + 1), namespace@) is Ok {
                                        let rest = s_collect(
                                            full.skip(i as int + 1),
                                            namespace@,
                                        )->Ok_0;
                                        assert(pre + (hs + rest) =~= (pre + hs) + rest);
                                    }
                                }
                            },
                        }
                    },
                    _ => {
                        return Err(Error::unexpected_type("Expected meta list."));
                    },
                }
            }
            i = i + 1;
        }
        proof {
            assert(full.skip(metas@.len() as int) =~= Seq::<MetaV>::empty());
            assert(out.deep_view() + Seq::<AttrV>::empty() =~= out.deep_view());
        }
        Ok(Attrs { attrs: out })
    }

    /// The first matching index of a name, or a negative value.
    pub open spec fn s_find_named(attrs: Seq<AttrV>, name: Seq<char>) -> int
        decreases attrs.len(),
    {
        if attrs.len() == 0 {
            -1
        } else if attrs[0].name == name {
            0
        } else {
            let rec = Self::s_find_named(attrs.drop_first(), name);
            if rec < 0 {
                -1
            } else {
                rec + 1
            }
        }
    }

    /// Scans for the first entry of the given name, marks it used, and
    /// extracts it; an absent name yields `None`.
    pub fn get_optional<T: FromMeta>(&mut self, name: &str) -> (r: FmResult<Option<T>>)
        ensures
            final(self).deep_view() == s_get_optional::<T>(old(self).deep_view(), name@).0,
            res_dv(r) == s_get_optional::<T>(old(self).deep_view(), name@).1,
    {
        let ghost full = old(self).deep_view();
        let mut i: usize = 0;
        proof {
            assert(full.skip(0) =~= full);
            assert(full.take(0) + s_get_optional::<T>(full, name@).0
                =~= s_get_optional::<T>(full, name@).0);
        }
        while i < self.attrs.len()
            invariant
                0 <= i <= self.attrs@.len(),
                self.attrs@.len() == full.len(),
                full == old(self).deep_view(),
                self.deep_view() == full,
                s_get_optional::<T>(full, name@).1 == s_get_optional::<T>(
                    full.skip(i as int),
                    name@,
                ).1,
                s_get_optional::<T>(full, name@).0 == full.take(i as int) + s_get_optional::<T>(
                    full.skip(i as int),
                    name@,
                ).0,
            decreases self.attrs@.len() - i,
        {
            let ghost tail = full.skip(i as int);
            proof {
                assert(tail[0] == full[i as int]);
                assert(tail.drop_first() =~= full.skip(i as int + 1));
            }
            if string_eq_str(&self.attrs[i].name, name) {
                let result = T::from_meta(&self.attrs[i].meta);
                self.attrs[i].used = true;
                proof {
                    let marked = AttrV { meta: tail[0].meta, name: tail[0].name, used: true };
                    assert(tail[0].name == name@);
                    assert(tail.len() > 0);
                    assert(s_get_optional::<T>(tail, name@).0 == seq![marked] + tail.drop_first());
                    assert(s_get_optional::<T>(tail, name@).1 == match T::s_from_meta(
                        tail[0].meta,
                    ) {
                        Ok(v) => Ok::<Option<T::V>, ErrorV>(Some(v)),
                        Err(e) => Err::<Option<T::V>, ErrorV>(e),
                    });
                    assert(self.deep_view() =~= full.update(i as int, marked));
                    assert(full.update(i as int, marked) =~= full.take(i as int) + (seq![marked]
                        + tail.drop_first()));
                }
                return match result {
                    Ok(v) => Ok(Some(v)),
                    Err(e) => Err(e),
                };
            }
            proof {
                assert(full.take(i as int + 1) + s_get_optional::<T>(
                    full.skip(i as int + 1),
                    name@,
                ).0 =~= full.take(i as int) + (seq![full[i as int]] + s_get_optional::<T>(
                    full.skip(i as int + 1),
                    name@,
                ).0));
            }
            i = i + 1;
        }
        proof {
            assert(full.skip(full.len() as int) =~= Seq::<AttrV>::empty());
            assert(full.take(full.len() as int) + Seq::<AttrV>::empty() =~= full);
        }
        Ok(None)
    }

    /// `get_optional`, turned into a "missing field" failure when the name
    /// is absent.
    pub fn get_required<T: FromMeta>(&mut self, name: &str) -> (r: FmResult<T>)
        ensures
            final(self).deep_view() == s_get_optional::<T>(old(self).deep_view(), name@).0,
            res_dv(r) == match s_get_optional::<T>(old(self).deep_view(), name@).1 {
                Ok(Some(v)) => Ok::<T::V, ErrorV>(v),
                Ok(None) => Err::<T::V, ErrorV>(ErrorV::MissingField(name@)),
                Err(e) => Err::<T::V, ErrorV>(e),
            },
    {
        match self.get_optional::<T>(name) {
            Ok(Some(v)) => Ok(v),
            Ok(None) => Err(Error::missing_field(name)),
            Err(e) => Err(e),
        }
    }

    /// Aggregates every entry of the given name, in order, marking each;
    /// the first failing entry stops the call.
    pub fn get_list<T: FromMeta>(&mut self, name: &str) -> (r: FmResult<Vec<T>>)
        ensures
            final(self).deep_view() == s_get_list::<T>(old(self).deep_view(), name@).0,
            res_dv(r) == s_get_list::<T>(old(self).deep_view(), name@).1,
    {
        let ghost full = old(self).deep_view();
        let mut ret: Vec<T> = Vec::new();
        let mut i: usize = 0;
        proof {
            assert(full.skip(0) =~= full);
            assert(full.take(0) + s_get_list::<T>(full, name@).0
                =~= s_get_list::<T>(full, name@).0);
        }
        while i < self.attrs.len()
            invariant
                0 <= i <= self.attrs@.len(),
                self.attrs@.len() == full.len(),
                full == old(self).deep_view(),
                self.deep_view().skip(i as int) == full.skip(i as int),
                self.deep_view().len() == full.len(),
                s_get_list::<T>(full, name@).0 == self.deep_view().take(i as int)
                    + s_get_list::<T>(full.skip(i as int), name@).0,
                s_get_list::<T>(full, name@).1 == match s_get_list::<T>(
                    full.skip(i as int),
                    name@,
                ).1 {
                    Ok(more) => Ok::<Seq<T::V>, ErrorV>(ret.deep_view() + more),
                    Err(e) => Err::<Seq<T::V>, ErrorV>(e),
                },
            decreases self.attrs@.len() - i,
        {
            let ghost tail = full.skip(i as int);
            let ghost cur = self.deep_view();
            proof {
                assert(tail[0] == full[i as int]);
                assert(cur[i as int] == tail[0]);
                assert(tail.drop_first() =~= full.skip(i as int + 1));
            }
            if string_eq_str(&self.attrs[i].name, name) {
                match <Vec<T> as FromMeta>::from_meta(&self.attrs[i].meta) {
                    Err(e) => {
                        proof {
                            assert(cur.take(i as int) + tail =~= cur);
                        }
                        return Err(e);
                    },
                    Ok(mut items) => {
                        self.attrs[i].used = true;
                        let ghost got = items.deep_view();
                        let ghost pre = ret.deep_view();
                        ret.append(&mut items);
                        proof {
                            let marked = AttrV {
                                meta: tail[0].meta,
                                name: tail[0].name,
                                used: true,
                            };
                            assert(ret.deep_view() =~= pre + got);
                            assert(self.deep_view() =~= cur.update(i as int, marked));
                            assert(self.deep_view().skip(i as int + 1) =~= full.skip(
                                i as int + 1,
                            ));
                            assert(self.deep_view().take(i as int + 1) =~= cur.take(i as int)
                                + seq![marked]);
                            assert((cur.take(i as int) + seq![marked]) + s_get_list::<T>(
                                full.skip(i as int + 1),
                                name@,
                            ).0 =~= cur.take(i as int) + (seq![marked] + s_get_list::<T>(
                                full.skip(i as int + 1),
                                name@,
                            ).0));
                            if s_get_list::<T>(full.skip(i as int + 1), name@).1 is Ok {
                                let more = s_get_list::<T>(full.skip(i as int + 1), name@).1->Ok_0;
                                assert(pre + (got + more) =~= (pre + got) + more);
                            }
                        }
                    },
                }
            } else {
                proof {
                    assert(self.deep_view().skip(i as int + 1) =~= full.skip(i as int + 1));
                    assert(self.deep_view().take(i as int + 1) =~= cur.take(i as int)
                        + seq![full[i as int]]);
                    assert((cur.take(i as int) + seq![full[i as int]]) + s_get_list::<T>(
                        full.skip(i as int + 1),
                        name@,
                    ).0 =~= cur.take(i as int) + (seq![full[i as int]] + s_get_list::<T>(
                        full.skip(i as int + 1),
                        name@,
                    ).0));
                }
            }
            i = i + 1;
        }
        proof {
            assert(full.skip(full.len() as int) =~= Seq::<AttrV>::empty());
            assert(self.deep_view().take(full.len() as int) + Seq::<AttrV>::empty()
                =~= self.deep_view());
            assert(ret.deep_view() + Seq::<T::V>::empty() =~= ret.deep_view());
        }
        Ok(ret)
    }

    /// Succeeds exactly when every collected entry has been read by some
    /// extraction call; otherwise names the first unread entry.
    pub fn ensure_used(&self) -> (r: FmResult<()>)
        ensures
            r matches Ok(_) <==> s_all_used(self.deep_view()),
            res_dv(r) == s_close(self.deep_view()),
    {
        proof {
            lemma_first_unused_none(self.deep_view());
        }
        let ghost full = self.deep_view();
        let mut i: usize = 0;
        proof {
            assert(full.skip(0) =~= full);
        }
        while i < self.attrs.len()
            invariant
                0 <= i <= self.attrs@.len(),
                self.attrs@.len() == full.len(),
                full == self.deep_view(),
                forall|k: int| 0 <= k < i as int ==> (#[trigger] full[k]).used,
                s_first_unused(full) == s_first_unused(full.skip(i as int)),
            decreases self.attrs@.len() - i,
        {
            let ghost tail = full.skip(i as int);
            proof {
                assert(tail[0] == full[i as int]);
                assert(tail.drop_first() =~= full.skip(i as int + 1));
            }
            if !self.attrs[i].used {
                return Err(Error::unknown_field(self.attrs[i].name.as_str()));
            }
            i = i + 1;
        }
        proof {
            assert(full.skip(full.len() as int) =~= Seq::<AttrV>::empty());
        }
        Ok(())
    }
}


/// Reading a name marks exactly the first entry of that name as used, and
/// changes nothing else: an absent name leaves the collection untouched;
/// a present one flips the `used` flag of its first entry only.
pub proof fn lemma_get_optional_marks<T: FromMeta>(attrs: Seq<AttrV>, name: Seq<char>)
    ensures
        Attrs::s_find_named(attrs, name) < 0 ==> s_get_optional::<T>(attrs, name).0 == attrs,
        Attrs::s_find_named(attrs, name) >= 0 ==> ({
            let i = Attrs::s_find_named(attrs, name);
            &&& 0 <= i < attrs.len()
            &&& attrs[i].name == name
            &&& forall|k: int| 0 <= k < i ==> (#[trigger] attrs[k]).name != name
            &&& s_get_optional::<T>(attrs, name).0 == attrs.update(
                i,
                AttrV { meta: attrs[i].meta, name: attrs[i].name, used: true },
            )
        }),
    decreases attrs.len(),
{
    if attrs.len() > 0 {
        lemma_get_optional_marks::<T>(attrs.drop_first(), name);
        if attrs[0].name == name {
            let marked = AttrV { meta: attrs[0].meta, name: attrs[0].name, used: true };
            assert(s_get_optional::<T>(attrs, name).0 =~= attrs.update(0, marked));
        } else {
            let rec = Attrs::s_find_named(attrs.drop_first(), name);
            if rec < 0 {
                assert(s_get_optional::<T>(attrs, name).0 =~= attrs);
            } else {
                let i = rec + 1;
                assert forall|k: int| 0 <= k < i implies (#[trigger] attrs[k]).name != name by {
                    if k > 0 {
                        assert(attrs.drop_first()[k - 1] == attrs[k]);
                    }
                }
                assert(attrs.drop_first()[rec] == attrs[i]);
                let markedi = AttrV { meta: attrs[i].meta, name: attrs[i].name, used: true };
                assert(s_get_optional::<T>(attrs.drop_first(), name).0 == attrs.drop_first()
                    .update(rec, markedi));
                assert(s_get_optional::<T>(attrs, name).0 =~= attrs.update(i, markedi));
            }
        }
    }
}

} // verus!

