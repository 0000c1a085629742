//! Multibody assembly: a tree of links, each hung from its parent by a
//! joint, numbered in the order in which they were attached.

use vstd::prelude::*;
use crate::dof::{DofChange, UnitDof};
use crate::error::Error;
use crate::joint::{lemma_change_keeps_wf, Joint};
use crate::vector::Vec3;

verus! {

/// Where a link sits relative to its joint.
#[derive(Clone, Copy, Debug, PartialEq, Eq)]
pub enum Placement {
    /// A plain shift.
    Offset(Vec3),
    /// A point on a horizontal circle of the given `radius` around the
    /// joint, `height` above it, at `step` of `steps` equal parts of a full
    /// turn.
    Ring { step: u32, steps: u32, radius: i64, height: i64 },
}

impl Placement {
    /// A ring must be divided into at least one step.
    pub open spec fn wf(self) -> bool {
        self matches Placement::Ring { steps, .. } ==> steps > 0
    }

    /// Whether the placement is well formed.
    pub fn is_valid(&self) -> (b: bool)
        ensures
            b == self.wf(),
    {
        match self {
            Placement::Offset(_) => true,
            Placement::Ring { steps, .. } => *steps > 0,
        }
    }
}

/// One link of a multibody: the joint that holds it, the link it hangs
/// from (none for the root), and the two shifts that place the joint on the
/// parent and the link on the joint.
#[derive(Clone, Copy, Debug, PartialEq, Eq)]
pub struct Link {
    pub joint: Joint,
    pub parent: Option<usize>,
    pub parent_shift: Vec3,
    pub body_shift: Placement,
}

impl Link {
    /// A link held by `joint` under `parent`, with both shifts zero.
    pub open spec fn fresh(parent: Option<usize>, joint: Joint) -> Link {
        Link {
            joint,
            parent,
            parent_shift: Vec3 { x: 0, y: 0, z: 0 },
            body_shift: Placement::Offset(Vec3 { x: 0, y: 0, z: 0 }),
        }
    }

    /// The joint and the placement are well formed.
    pub open spec fn wf(self) -> bool {
        self.joint.wf() && self.body_shift.wf()
    }
}

/// The links form a tree rooted at link 0: the root has no parent, every
/// other link hangs from a link attached before it, and each link is well
/// formed.
pub open spec fn tree_wf(links: Seq<Link>) -> bool {
    &&& links.len() >= 1
    &&& links[0].parent is None
    &&& forall|i: int|
        1 <= i < links.len() ==> (#[trigger] links[i]).parent is Some && links[i].parent->0 < i
    &&& forall|i: int| 0 <= i < links.len() ==> (#[trigger] links[i]).wf()
}

/// The link with the given index, if there is one.
pub open spec fn link_at(links: Seq<Link>, index: int) -> Option<Link> {
    if 0 <= index < links.len() {
        Some(links[index])
    } else {
        None
    }
}

/// The number of degrees of freedom of all the links together.
pub open spec fn total_dofs(links: Seq<Link>) -> nat
    decreases links.len(),
{
    if links.len() == 0 {
        0
    } else {
        total_dofs(links.drop_last()) + links.last().joint.dof_count()
    }
}

/// The damping that the degrees of freedom of `joint` start with.
pub open spec fn joint_damping(joint: Joint) -> Seq<i64> {
    Seq::new(joint.dof_count(), |i: int| joint.dof_kinds()[i].spec_default_damping())
}

/// The damping that a multibody with these links starts with: that of each
/// joint, link after link.
pub open spec fn default_damping(links: Seq<Link>) -> Seq<i64>
    decreases links.len(),
{
    if links.len() == 0 {
        Seq::empty()
    } else {
        default_damping(links.drop_last()) + joint_damping(links.last().joint)
    }
}

/// How many joints connect one link to another: every link but the root
/// brings one.
pub open spec fn inner_joints(links: Seq<Link>) -> nat
    decreases links.len(),
{
    if links.len() == 0 {
        0
    } else {
        inner_joints(links.drop_last()) + if links.last().parent is Some {
            1nat
        } else {
            0nat
        }
    }
}

/// The number of joints between a link and the root.
pub open spec fn depth(links: Seq<Link>, index: int) -> nat
    decreases index,
{
    if 0 < index < links.len() && links[index].parent is Some && links[index].parent->0 < index {
        1 + depth(links, links[index].parent->0 as int)
    } else {
        0
    }
}

/// The links that come of attaching `children` one after another under a
/// root held by `root`, each child given as the index of its parent and its
/// joint; or the first thing that stops the assembly: a malformed joint, or
/// a parent that is not there yet (`LinkNotFound`).
pub open spec fn assembled(root: Joint, children: Seq<(usize, Joint)>) -> Result<Seq<Link>, Error>
    decreases children.len(),
{
    if children.len() == 0 {
        match root.defect() {
            None => Ok(seq![Link::fresh(None, root)]),
            Some(e) => Err(e),
        }
    } else {
        match assembled(root, children.drop_last()) {
            Err(e) => Err(e),
            Ok(links) => {
                let (parent, joint) = children.last();
                if parent >= links.len() {
                    Err(Error::LinkNotFound)
                } else if joint.defect() is Some {
                    Err(joint.defect()->0)
                } else {
                    Ok(links.push(Link::fresh(Some(parent), joint)))
                }
            },
        }
    }
}

/// The link reached from `index` by going up to the parent `steps` times,
/// stopping at the root.
pub open spec fn ancestor(links: Seq<Link>, index: int, steps: nat) -> int
    decreases steps,
{
    if steps == 0 || !(0 < index < links.len()) || links[index].parent is None {
        index
    } else {
        ancestor(links, links[index].parent->0 as int, (steps - 1) as nat)
    }
}

/// What a multibody is, seen from outside: its links in the order of
/// attachment, and one damping coefficient for each degree of freedom.
pub struct MultibodyView {
    pub links: Seq<Link>,
    pub damping: Seq<i64>,
}

impl MultibodyView {
    /// The same multibody with the joint of link `link` moved to `shift`
    /// from its parent.
    pub open spec fn with_parent_shift(self, link: int, shift: Vec3) -> MultibodyView {
        MultibodyView {
            links: self.links.update(link, Link { parent_shift: shift, ..self.links[link] }),
            damping: self.damping,
        }
    }

    /// The same multibody with link `link` placed at `shift` from its
    /// joint.
    pub open spec fn with_body_shift(self, link: int, shift: Placement) -> MultibodyView {
        MultibodyView {
            links: self.links.update(link, Link { body_shift: shift, ..self.links[link] }),
            damping: self.damping,
        }
    }

    /// The same multibody with one more link, held by `joint` under the
    /// link `parent`, and with the default damping of the joint.
    pub open spec fn with_child(self, parent: usize, joint: Joint) -> MultibodyView {
        MultibodyView {
            links: self.links.push(Link::fresh(Some(parent), joint)),
            damping: self.damping + joint_damping(joint),
        }
    }

    /// The `index`-th controllable degree of freedom of the joint of link
    /// `link`, or what is missing: the link (`LinkNotFound`) or the degree
    /// of freedom (`DofNotFound`).
    pub open spec fn unit_at(self, link: int, index: int) -> Result<UnitDof, Error> {
        if 0 <= link < self.links.len() {
            if 0 <= index < self.links[link].joint.units().len() {
                Ok(self.links[link].joint.units()[index])
            } else {
                Err(Error::DofNotFound)
            }
        } else {
            Err(Error::LinkNotFound)
        }
    }

    /// What `change` on the `index`-th controllable degree of freedom of
    /// the joint of link `link` makes of the multibody, or why it is
    /// refused: `LinkNotFound`, `DofNotFound` or `LimitsCrossed`.
    pub open spec fn changed(self, link: int, index: int, change: DofChange) -> Result<
        MultibodyView,
        Error,
    > {
        if 0 <= link < self.links.len() {
            match self.links[link].joint.changed(index, change) {
                Ok(joint) => Ok(
                    MultibodyView {
                        links: self.links.update(link, Link { joint, ..self.links[link] }),
                        damping: self.damping,
                    },
                ),
                Err(e) => Err(e),
            }
        } else {
            Err(Error::LinkNotFound)
        }
    }
}

/// A tree of links. Link 0 is the root; a child gets the next free index.
#[derive(Debug)]
pub struct Multibody {
    links: Vec<Link>,
    starts: Vec<usize>,
    damping: Vec<i64>,
}

impl View for Multibody {
    type V = MultibodyView;

    closed spec fn view(&self) -> MultibodyView {
        MultibodyView { links: self.links@, damping: self.damping@ }
    }
}

/// Attaching a link adds its degrees of freedom to the total.
pub proof fn lemma_total_dofs_push(links: Seq<Link>, link: Link)
    ensures
        total_dofs(links.push(link)) == total_dofs(links) + link.joint.dof_count(),
{
    assert(links.push(link).drop_last() =~= links);
}

/// The total number of degrees of freedom depends only on how many each
/// joint has.
pub proof fn lemma_total_dofs_same(a: Seq<Link>, b: Seq<Link>)
    requires
        a.len() == b.len(),
        forall|i: int| 0 <= i < a.len() ==> a[i].joint.dof_count() == b[i].joint.dof_count(),
    ensures
        total_dofs(a) == total_dofs(b),
    decreases a.len(),
{
    if a.len() > 0 {
        lemma_total_dofs_same(a.drop_last(), b.drop_last());
    }
}

impl Multibody {
    /// The degree of freedom at which each link's own degrees start is on
    /// record.
    pub closed spec fn index_wf(&self) -> bool {
        &&& self.starts@.len() == self.links@.len()
        &&& forall|i: int|
            0 <= i < self.starts@.len() ==> (#[trigger] self.starts@[i]) == total_dofs(
                self.links@.take(i),
            )
    }

    /// The links form a tree and there is one damping coefficient for each
    /// degree of freedom.
    pub open spec fn wf(&self) -> bool {
        &&& tree_wf(self@.links)
        &&& self@.damping.len() == total_dofs(self@.links)
        &&& self.index_wf()
    }

    /// A multibody of one link, the root, held by `joint`. Rejected with
    /// what is wrong with the joint when it is malformed.
    pub fn new(joint: Joint) -> (r: Result<Multibody, Error>)
        ensures
            joint.defect() is None ==> r is Ok,
            joint.defect() is Some ==> r is Err && r->Err_0 == joint.defect()->0,
            r is Ok ==> r->Ok_0.wf(),
            r is Ok ==> r->Ok_0@.links == seq![Link::fresh(None, joint)],
            r is Ok ==> r->Ok_0@.damping == joint_damping(joint),
            r is Ok ==> r->Ok_0@.damping == default_damping(r->Ok_0@.links),
    {
        match joint.validate() {
            Err(e) => {
                return Err(e);
            },
            Ok(()) => {},
        }
        let mut damping: Vec<i64> = Vec::new();
        let n = joint.degrees_of_freedom();
        let mut k: usize = 0;
        while k < n
            invariant
                k <= n,
                n == joint.dof_count(),
                damping@ == joint_damping(joint).take(k as int),
            decreases n - k,
        {
            let kind = joint.dof_kind(k);
            match kind {
                Some(kind) => {
                    damping.push(kind.default_damping());
                },
                None => {},
            }
            assert(damping@ =~= joint_damping(joint).take(k + 1));
            k += 1;
        }
        let link = Link {
            joint,
            parent: None,
            parent_shift: Vec3::zeros(),
            body_shift: Placement::Offset(Vec3::zeros()),
        };
        let mut links: Vec<Link> = Vec::new();
        links.push(link);
        let mut starts: Vec<usize> = Vec::new();
        starts.push(0);
        let mb = Multibody { links, starts, damping };
        proof {
            assert(mb@.links =~= seq![Link::fresh(None, joint)]);
            assert(mb@.damping =~= joint_damping(joint));
            lemma_total_dofs_push(Seq::empty(), link);
            lemma_default_damping_push(Seq::empty(), link);
            assert(default_damping(mb@.links) =~= joint_damping(joint));
            assert(Seq::<Link>::empty().push(link) =~= mb@.links);
            assert(mb.links@.take(0) =~= Seq::empty());
        }
        Ok(mb)
    }

    /// The number of links.
    pub fn num_links(&self) -> (n: usize)
        ensures
            n == self@.links.len(),
    {
        self.links.len()
    }

    /// The number of links below the root.
    pub fn num_children(&self) -> (n: usize)
        requires
            self.wf(),
        ensures
            n + 1 == self@.links.len(),
    {
        self.links.len() - 1
    }

    /// The link with the given index; `None` when there is no such link.
    pub fn link(&self, index: usize) -> (l: Option<Link>)
        ensures
            l == link_at(self@.links, index as int),
    {
        if index < self.links.len() {
            Some(self.links[index])
        } else {
            None
        }
    }

    /// The number of degrees of freedom of the whole multibody.
    pub fn ndofs(&self) -> (n: usize)
        requires
            self.wf(),
        ensures
            n == total_dofs(self@.links),
    {
        self.damping.len()
    }

    /// The index, among the degrees of freedom of the whole multibody, of
    /// the first degree of freedom of the given link; `None` when there is
    /// no such link.
    pub fn assembly_id(&self, link: usize) -> (id: Option<usize>)
        requires
            self.wf(),
        ensures
            link < self@.links.len() ==> id == Some(
                total_dofs(self@.links.take(link as int)) as usize,
            ) && total_dofs(self@.links.take(link as int)) <= usize::MAX,
            link >= self@.links.len() ==> id is None,
    {
        if link < self.starts.len() {
            Some(self.starts[link])
        } else {
            None
        }
    }

    /// The damping coefficients, one for each degree of freedom.
    pub fn damping(&self) -> (d: &Vec<i64>)
        ensures
            d@ == self@.damping,
    {
        &self.damping
    }

    /// Attaches a new link, held by `joint`, under the link `parent`, and
    /// returns the index of the new link. Nothing is attached when there is
    /// no link `parent` (`LinkNotFound`) or when the joint is malformed (the
    /// error says what is wrong with it).
    pub fn add_child(&mut self, parent: usize, joint: Joint) -> (r: Result<usize, Error>)
        requires
            old(self).wf(),
        ensures
            final(self).wf(),
            parent >= old(self)@.links.len() ==> r == Err::<usize, Error>(Error::LinkNotFound),
            parent < old(self)@.links.len() && joint.defect() is Some ==> r == Err::<usize, Error>(
                joint.defect()->0,
            ),
            parent < old(self)@.links.len() && joint.defect() is None ==> r == Ok::<usize, Error>(
                old(self)@.links.len() as usize,
            ),
            r is Err ==> final(self)@ == old(self)@,
            r is Ok ==> final(self)@ == old(self)@.with_child(parent, joint),
    {
        if parent >= self.links.len() {
            return Err(Error::LinkNotFound);
        }
        match joint.validate() {
            Err(e) => {
                return Err(e);
            },
            Ok(()) => {},
        }
        let id = self.links.len();
        let start = self.damping.len();
        let n = joint.degrees_of_freedom();
        let mut k: usize = 0;
        while k < n
            invariant
                k <= n,
                n == joint.dof_count(),
                self.links@ == old(self).links@,
                self.starts@ == old(self).starts@,
                self.damping@ == old(self).damping@ + joint_damping(joint).take(k as int),
            decreases n - k,
        {
            let kind = joint.dof_kind(k);
            match kind {
                Some(kind) => {
                    self.damping.push(kind.default_damping());
                },
                None => {},
            }
            assert(self.damping@ =~= old(self).damping@ + joint_damping(joint).take(k + 1));
            k += 1;
        }
        let link = Link {
            joint,
            parent: Some(parent),
            parent_shift: Vec3::zeros(),
            body_shift: Placement::Offset(Vec3::zeros()),
        };
        self.starts.push(start);
        self.links.push(link);
        proof {
            let before = old(self).links@;
            let after = self.links@;
            assert(joint_damping(joint).take(n as int) =~= joint_damping(joint));
            lemma_total_dofs_push(before, link);
            assert forall|i: int| 0 <= i < self.starts@.len() implies (#[trigger] self.starts@[i])
                == total_dofs(after.take(i)) by {
                if i < before.len() {
                    assert(after.take(i) =~= before.take(i));
                } else {
                    assert(after.take(i) =~= before);
                }
            }
        }
        Ok(id)
    }

    /// Builds a multibody from a root joint and a list of children, each
    /// given as the index of its parent and its joint, attached in the
    /// order of the list. Stops at the first child that cannot be attached.
    pub fn assemble(root: Joint, children: &Vec<(usize, Joint)>) -> (r: Result<Multibody, Error>)
        ensures
            assembled(root, children@) is Ok ==> r is Ok,
            assembled(root, children@) is Err ==> r is Err,
            r is Err ==> r->Err_0 == assembled(root, children@)->Err_0,
            r is Ok ==> r->Ok_0.wf(),
            r is Ok ==> r->Ok_0@.links == assembled(root, children@)->Ok_0,
            r is Ok ==> r->Ok_0@.damping == default_damping(r->Ok_0@.links),
    {
        let mut mb = match Multibody::new(root) {
            Ok(mb) => mb,
            Err(e) => {
                proof {
                    lemma_assembled_prefix_error(root, children@, 0);
                }
                return Err(e);
            },
        };
        proof {
            assert(children@.take(0) =~= Seq::empty());
        }
        let mut i: usize = 0;
        while i < children.len()
            invariant
                i <= children.len(),
                mb.wf(),
                assembled(root, children@.take(i as int)) == Ok::<Seq<Link>, Error>(mb@.links),
                mb@.damping == default_damping(mb@.links),
            decreases children.len() - i,
        {
            let (parent, joint) = children[i];
            let ghost before = mb@.links;
            proof {
                assert(children@.take(i + 1).drop_last() =~= children@.take(i as int));
                assert(children@.take(i + 1).last() == children@[i as int]);
            }
            match mb.add_child(parent, joint) {
                Ok(_) => {
                    proof {
                        lemma_default_damping_push(before, Link::fresh(Some(parent), joint));
                    }
                },
                Err(e) => {
                    proof {
                        lemma_assembled_prefix_error(root, children@, i + 1);
                    }
                    return Err(e);
                },
            }
            i += 1;
        }
        proof {
            assert(children@.take(i as int) =~= children@);
        }
        Ok(mb)
    }

    /// Sets the shift from the parent to the joint of the given link.
    /// `LinkNotFound` when there is no such link.
    pub fn set_parent_shift(&mut self, link: usize, shift: Vec3) -> (r: Result<(), Error>)
        requires
            old(self).wf(),
        ensures
            final(self).wf(),
            link >= old(self)@.links.len() ==> r == Err::<(), Error>(Error::LinkNotFound),
            link >= old(self)@.links.len() ==> final(self)@ == old(self)@,
            link < old(self)@.links.len() ==> r is Ok,
            link < old(self)@.links.len() ==> final(self)@ == old(self)@.with_parent_shift(
                link as int,
                shift,
            ),
    {
        if link >= self.links.len() {
            return Err(Error::LinkNotFound);
        }
        let mut next = self.links[link];
        next.parent_shift = shift;
        self.replace_link(link, next);
        Ok(())
    }

    /// Sets the placement of the given link relative to its joint.
    /// `LinkNotFound` when there is no such link, `EmptyRing` when the
    /// placement is a ring of zero steps.
    pub fn set_body_shift(&mut self, link: usize, shift: Placement) -> (r: Result<(), Error>)
        requires
            old(self).wf(),
        ensures
            final(self).wf(),
            link >= old(self)@.links.len() ==> r == Err::<(), Error>(Error::LinkNotFound),
            link >= old(self)@.links.len() ==> final(self)@ == old(self)@,
            link < old(self)@.links.len() && !shift.wf() ==> r == Err::<(), Error>(
                Error::EmptyRing,
            ),
            link < old(self)@.links.len() && !shift.wf() ==> final(self)@ == old(self)@,
            link < old(self)@.links.len() && shift.wf() ==> r is Ok,
            link < old(self)@.links.len() && shift.wf() ==> final(self)@ == old(
                self,
            )@.with_body_shift(link as int, shift),
    {
        if link >= self.links.len() {
            return Err(Error::LinkNotFound);
        }
        if !shift.is_valid() {
            return Err(Error::EmptyRing);
        }
        let mut next = self.links[link];
        next.body_shift = shift;
        self.replace_link(link, next);
        Ok(())
    }

    /// Puts `next` in the place of the given link. The new link must hang
    /// from the same parent and have as many degrees of freedom.
    fn replace_link(&mut self, link: usize, next: Link)
        requires
            old(self).wf(),
            link < old(self)@.links.len(),
            next.wf(),
            next.parent == old(self)@.links[link as int].parent,
            next.joint.dof_count() == old(self)@.links[link as int].joint.dof_count(),
        ensures
            final(self).wf(),
            final(self)@.links == old(self)@.links.update(link as int, next),
            final(self)@.damping == old(self)@.damping,
    {
        self.links.set(link, next);
        proof {
            let before = old(self).links@;
            let after = self.links@;
            lemma_total_dofs_same(before, after);
            assert forall|i: int| 0 <= i < self.starts@.len() implies (#[trigger] self.starts@[i])
                == total_dofs(after.take(i)) by {
                lemma_total_dofs_same(before.take(i), after.take(i));
            }
        }
    }

    /// Sets every damping coefficient to `value`.
    pub fn fill_damping(&mut self, value: i64)
        requires
            old(self).wf(),
        ensures
            final(self).wf(),
            final(self)@.links == old(self)@.links,
            final(self)@.damping == Seq::new(old(self)@.damping.len(), |i: int| value),
    {
        let n = self.damping.len();
        let mut k: usize = 0;
        while k < n
            invariant
                k <= n,
                n == old(self).damping@.len(),
                self.links@ == old(self).links@,
                self.starts@ == old(self).starts@,
                self.damping@.len() == n,
                forall|i: int| 0 <= i < k ==> self.damping@[i] == value,
            decreases n - k,
        {
            self.damping.set(k, value);
            k += 1;
        }
        assert(self.damping@ =~= Seq::new(old(self)@.damping.len(), |i: int| value));
    }

    /// Carries out `change` on the `index`-th controllable degree of
    /// freedom of the joint of the given link, or leaves the multibody
    /// untouched and reports why not.
    pub fn change_dof(&mut self, link: usize, index: usize, change: DofChange) -> (r: Result<
        (),
        Error,
    >)
        requires
            old(self).wf(),
        ensures
            final(self).wf(),
            old(self)@.changed(link as int, index as int, change) is Ok ==> r is Ok,
            old(self)@.changed(link as int, index as int, change) is Err ==> r is Err,
            r is Err ==> r->Err_0 == old(self)@.changed(link as int, index as int, change)->Err_0,
            r is Err ==> final(self)@ == old(self)@,
            r is Ok ==> final(self)@ == old(self)@.changed(link as int, index as int, change)->Ok_0,
    {
        if link >= self.links.len() {
            return Err(Error::LinkNotFound);
        }
        let mut next = self.links[link];
        match next.joint.change(index, change) {
            Err(e) => Err(e),
            Ok(()) => {
                proof {
                    lemma_change_keeps_wf(
                        old(self)@.links[link as int].joint,
                        index as int,
                        change,
                    );
                }
                self.replace_link(link, next);
                Ok(())
            },
        }
    }

    /// The `index`-th controllable degree of freedom of the joint of the
    /// given link, or what is missing: the link or the degree of freedom.
    pub fn unit(&self, link: usize, index: usize) -> (r: Result<UnitDof, Error>)
        ensures
            r == self@.unit_at(link as int, index as int),
    {
        if link >= self.links.len() {
            return Err(Error::LinkNotFound);
        }
        match self.links[link].joint.unit(index) {
            Some(unit) => Ok(unit),
            None => Err(Error::DofNotFound),
        }
    }

    /// The number of joints between the given link and the root; `None`
    /// when there is no such link.
    pub fn depth(&self, link: usize) -> (d: Option<usize>)
        requires
            self.wf(),
        ensures
            link < self@.links.len() ==> d == Some(depth(self@.links, link as int) as usize)
                && depth(self@.links, link as int) <= link,
            link >= self@.links.len() ==> d is None,
    {
        if link >= self.links.len() {
            return None;
        }
        let mut at: usize = link;
        let mut steps: usize = 0;
        proof {
            lemma_depth_bound(self@.links, link as int);
        }
        while at > 0
            invariant
                self.wf(),
                at <= link < self.links@.len(),
                steps + at <= link,
                steps + depth(self@.links, at as int) == depth(self@.links, link as int),
                depth(self@.links, at as int) <= at,
            decreases at,
        {
            proof {
                let p = self@.links[at as int].parent->0;
                lemma_depth_bound(self@.links, p as int);
            }
            match self.links[at].parent {
                Some(p) => {
                    at = p;
                    steps += 1;
                },
                None => {
                    return None;
                },
            }
        }
        Some(steps)
    }
}

/// Attaching a link appends the default damping of its joint.
pub proof fn lemma_default_damping_push(links: Seq<Link>, link: Link)
    ensures
        default_damping(links.push(link)) == default_damping(links) + joint_damping(link.joint),
{
    assert(links.push(link).drop_last() =~= links);
}

/// The default damping depends only on the joints of the links.
pub proof fn lemma_default_damping_same(a: Seq<Link>, b: Seq<Link>)
    requires
        a.len() == b.len(),
        forall|i: int| 0 <= i < a.len() ==> a[i].joint.dof_kinds() == b[i].joint.dof_kinds(),
    ensures
        default_damping(a) == default_damping(b),
    decreases a.len(),
{
    if a.len() > 0 {
        lemma_default_damping_same(a.drop_last(), b.drop_last());
        assert(joint_damping(a.last().joint) =~= joint_damping(b.last().joint));
    }
}

/// An assembly that has failed on the first `n` children fails in the same
/// way on the whole list.
pub proof fn lemma_assembled_prefix_error(root: Joint, children: Seq<(usize, Joint)>, n: int)
    requires
        0 <= n <= children.len(),
        assembled(root, children.take(n)) is Err,
    ensures
        assembled(root, children) == assembled(root, children.take(n)),
    decreases children.len() - n,
{
    if n < children.len() {
        assert(children.take(n + 1).drop_last() =~= children.take(n));
        lemma_assembled_prefix_error(root, children, n + 1);
    } else {
        assert(children.take(n) =~= children);
    }
}

/// A link is never deeper in the tree than its index.
pub proof fn lemma_depth_bound(links: Seq<Link>, index: int)
    ensures
        depth(links, index) <= index || index < 0,
    decreases index,
{
    if 0 < index < links.len() && links[index].parent is Some && links[index].parent->0 < index {
        lemma_depth_bound(links, links[index].parent->0 as int);
    }
}

/// There are no cycles: going up from any link of a tree, parent by parent,
/// as many times as the link is deep, ends at the root.
pub proof fn lemma_root_is_ancestor(links: Seq<Link>, index: int)
    requires
        tree_wf(links),
        0 <= index < links.len(),
    ensures
        ancestor(links, index, depth(links, index)) == 0,
    decreases index,
{
    if index > 0 {
        lemma_root_is_ancestor(links, links[index].parent->0 as int);
    }
}

/// Whatever is assembled is a tree with one link for the root and one for
/// each child.
pub proof fn lemma_assembled_is_tree(root: Joint, children: Seq<(usize, Joint)>)
    requires
        assembled(root, children) is Ok,
    ensures
        tree_wf(assembled(root, children)->Ok_0),
        assembled(root, children)->Ok_0.len() == children.len() + 1,
    decreases children.len(),
{
    if children.len() > 0 {
        lemma_assembled_is_tree(root, children.drop_last());
    }
}

/// Building a multibody with `k` children and then asking for link `index`
/// gives a link for every index from 0 to `k`, and none for any other.
pub proof fn lemma_link_round_trip(root: Joint, children: Seq<(usize, Joint)>, index: int)
    requires
        assembled(root, children) is Ok,
    ensures
        link_at(assembled(root, children)->Ok_0, index) is Some <==> 0 <= index <= children.len(),
        link_at(assembled(root, children)->Ok_0, children.len() as int + 1) is None,
{
    lemma_assembled_is_tree(root, children);
}

/// A tree of links has one joint between links fewer than it has links.
pub proof fn lemma_link_count_is_joint_count_plus_one(links: Seq<Link>)
    requires
        tree_wf(links),
    ensures
        links.len() == inner_joints(links) + 1,
{
    lemma_inner_joints_prefix(links, links.len() as int);
    assert(links.take(links.len() as int) =~= links);
}

/// The first `n` links of a tree hold `n - 1` joints between links.
proof fn lemma_inner_joints_prefix(links: Seq<Link>, n: int)
    requires
        tree_wf(links),
        1 <= n <= links.len(),
    ensures
        inner_joints(links.take(n)) + 1 == n,
    decreases n,
{
    let prefix = links.take(n);
    assert(prefix.drop_last() =~= links.take(n - 1));
    assert(prefix.last() == links[n - 1]);
    if n > 1 {
        lemma_inner_joints_prefix(links, n - 1);
    } else {
        assert(inner_joints(prefix.drop_last()) == 0);
    }
}

} // verus!
