use vstd::prelude::*;
use crate::scalar::{ONE_BITS, THREE_QUARTERS_BITS, HALF_BITS};
use crate::search::{first_true, lemma_first_true, lemma_first_true_is};

verus! {

/// What a queue family of a physical device can do.
#[derive(Clone, Copy, Debug, PartialEq, Eq, Structural)]
pub struct QueueFamily {
    /// Identifier of the family within its physical device.
    pub id: u32,
    /// Number of queues in the family.
    pub queues_count: u32,
    pub supports_graphics: bool,
    pub supports_compute: bool,
    pub supports_transfers: bool,
    /// Whether queues of the family can present to the target surface.
    pub supports_present: bool,
}

/// A queue opened on the logical device.
#[derive(Clone, Copy, Debug, PartialEq, Eq, Structural)]
pub struct Queue {
    pub family: QueueFamily,
    pub id_within_family: u32,
}

/// A queue family to open a queue from, with the queue's priority as the bit
/// pattern of a number between 0.0 and 1.0.
#[derive(Clone, Copy, Debug, PartialEq, Eq, Structural)]
pub struct QueueRequest {
    pub family: QueueFamily,
    pub priority: u32,
}

/// Positions, in a list of families, of those chosen for each role.
#[derive(Clone, Copy, Debug, PartialEq, Eq, Structural)]
pub struct QueueRoles {
    pub graphics: Option<usize>,
    pub compute: Option<usize>,
    pub transfer: Option<usize>,
}

/// Whether a family can take the graphics role: it draws and it presents.
pub open spec fn fits_graphics(family: QueueFamily) -> bool {
    family.supports_graphics && family.supports_present
}

/// The family for graphics: the first that draws and presents.
pub open spec fn spec_graphics_family(families: Seq<QueueFamily>) -> Option<int> {
    first_true(Seq::new(families.len(), |i: int| fits_graphics(families[i])))
}

/// The family for compute: the first that computes, the graphics family
/// left aside.
pub open spec fn spec_compute_family(families: Seq<QueueFamily>) -> Option<int> {
    let graphics = spec_graphics_family(families);
    first_true(
        Seq::new(families.len(), |i: int| Some(i) != graphics && families[i].supports_compute),
    )
}

/// The family for transfers: the first that transfers, the graphics and
/// compute families left aside.
pub open spec fn spec_transfer_family(families: Seq<QueueFamily>) -> Option<int> {
    let graphics = spec_graphics_family(families);
    let compute = spec_compute_family(families);
    first_true(
        Seq::new(
            families.len(),
            |i: int| Some(i) != graphics && Some(i) != compute && families[i].supports_transfers,
        ),
    )
}

/// An exec position as a spec position.
pub open spec fn spec_position(p: Option<usize>) -> Option<int> {
    match p {
        Some(i) => Some(i as int),
        None => None,
    }
}

/// Chooses a family for each role in one pass over the families: each
/// family takes the first role that is still open and that it fits,
/// graphics before compute before transfer.
pub fn assign_queue_roles(families: &Vec<QueueFamily>) -> (roles: QueueRoles)
    ensures
        spec_position(roles.graphics) == spec_graphics_family(families@),
        spec_position(roles.compute) == spec_compute_family(families@),
        spec_position(roles.transfer) == spec_transfer_family(families@),
{
    let mut graphics: Option<usize> = None;
    let mut compute: Option<usize> = None;
    let mut transfer: Option<usize> = None;
    let ghost fs = families@;
    let mut k: usize = 0;
    while k < families.len()
        invariant
            0 <= k <= families.len(),
            fs == families@,
            match graphics {
                Some(g) => g < k && fits_graphics(fs[g as int]) && forall|j: int|
                    0 <= j < g ==> !fits_graphics(fs[j]),
                None => forall|j: int| 0 <= j < k ==> !fits_graphics(fs[j]),
            },
            match compute {
                Some(c) => c < k && graphics != Some(c) && fs[c as int].supports_compute
                    && forall|j: int|
                    0 <= j < c ==> (spec_position(graphics) == Some(j) || !fs[j].supports_compute),
                None => forall|j: int|
                    0 <= j < k ==> (spec_position(graphics) == Some(j) || !fs[j].supports_compute),
            },
            match transfer {
                Some(t) => t < k && graphics != Some(t) && compute != Some(t)
                    && fs[t as int].supports_transfers && forall|j: int|
                    0 <= j < t ==> (spec_position(graphics) == Some(j) || spec_position(compute)
                        == Some(j) || !fs[j].supports_transfers),
                None => forall|j: int|
                    0 <= j < k ==> (spec_position(graphics) == Some(j) || spec_position(compute)
                        == Some(j) || !fs[j].supports_transfers),
            },
        decreases families.len() - k,
    {
        let family = families[k];
        if graphics.is_none() && family.supports_graphics && family.supports_present {
            graphics = Some(k);
        } else if compute.is_none() && family.supports_compute {
            compute = Some(k);
        } else if transfer.is_none() && family.supports_transfers {
            transfer = Some(k);
        }
        k += 1;
    }
    proof {
        let g = spec_position(graphics);
        let c = spec_position(compute);
        let t = spec_position(transfer);
        lemma_first_true_is(Seq::new(fs.len(), |i: int| fits_graphics(fs[i])), g);
        lemma_first_true_is(
            Seq::new(fs.len(), |i: int| Some(i) != g && fs[i].supports_compute),
            c,
        );
        lemma_first_true_is(
            Seq::new(
                fs.len(),
                |i: int| Some(i) != g && Some(i) != c && fs[i].supports_transfers,
            ),
            t,
        );
    }
    QueueRoles { graphics, compute, transfer }
}

/// The request made for the family at position `i`, if the family was
/// chosen for a role: full priority for graphics, three quarters for
/// compute, half for transfers.
pub open spec fn spec_request_at(families: Seq<QueueFamily>, i: int) -> Option<QueueRequest> {
    if spec_graphics_family(families) == Some(i) {
        Some(QueueRequest { family: families[i], priority: ONE_BITS })
    } else if spec_compute_family(families) == Some(i) {
        Some(QueueRequest { family: families[i], priority: THREE_QUARTERS_BITS })
    } else if spec_transfer_family(families) == Some(i) {
        Some(QueueRequest { family: families[i], priority: HALF_BITS })
    } else {
        None
    }
}

/// The requests made for the first `n` families, in the families' order.
pub open spec fn spec_requests_upto(families: Seq<QueueFamily>, n: int) -> Seq<QueueRequest>
    decreases n,
{
    if n <= 0 {
        Seq::empty()
    } else {
        let before = spec_requests_upto(families, n - 1);
        match spec_request_at(families, n - 1) {
            Some(request) => before.push(request),
            None => before,
        }
    }
}

/// The queues to open on a device with these families.
pub open spec fn spec_find_queues(families: Seq<QueueFamily>) -> Seq<QueueRequest> {
    spec_requests_upto(families, families.len() as int)
}

/// Finds the queue families to open queues from: one request for each
/// family that `assign_queue_roles` chose, in the families' order.
pub fn find_queues(families: &Vec<QueueFamily>) -> (requests: Vec<QueueRequest>)
    ensures
        requests@ == spec_find_queues(families@),
{
    let roles = assign_queue_roles(families);
    let mut queue_collection: Vec<QueueRequest> = Vec::new();
    let mut k: usize = 0;
    while k < families.len()
        invariant
            0 <= k <= families.len(),
            spec_position(roles.graphics) == spec_graphics_family(families@),
            spec_position(roles.compute) == spec_compute_family(families@),
            spec_position(roles.transfer) == spec_transfer_family(families@),
            queue_collection@ == spec_requests_upto(families@, k as int),
        decreases families.len() - k,
    {
        let family = families[k];
        if roles.graphics == Some(k) {
            queue_collection.push(QueueRequest { family, priority: ONE_BITS });
        } else if roles.compute == Some(k) {
            queue_collection.push(QueueRequest { family, priority: THREE_QUARTERS_BITS });
        } else if roles.transfer == Some(k) {
            queue_collection.push(QueueRequest { family, priority: HALF_BITS });
        }
        k += 1;
    }
    queue_collection
}

/// The families of a list of queues, in the same order.
pub open spec fn spec_families_of(queues: Seq<Queue>) -> Seq<QueueFamily> {
    Seq::new(queues.len(), |i: int| queues[i].family)
}

/// The first queue of each family, in the families' order.
pub open spec fn spec_first_queues(families: Seq<QueueFamily>) -> Seq<Queue> {
    Seq::new(families.len(), |i: int| Queue { family: families[i], id_within_family: 0 })
}

/// Returns the first queue of each family, in the families' order.
pub fn first_queues(families: &Vec<QueueFamily>) -> (queues: Vec<Queue>)
    ensures
        queues@ == spec_first_queues(families@),
{
    let mut queues: Vec<Queue> = Vec::new();
    let mut i: usize = 0;
    while i < families.len()
        invariant
            0 <= i <= families.len(),
            queues@.len() == i,
            forall|j: int|
                0 <= j < i ==> queues@[j] == (Queue { family: families@[j], id_within_family: 0 }),
        decreases families.len() - i,
    {
        queues.push(Queue { family: families[i], id_within_family: 0 });
        i += 1;
    }
    assert(queues@ =~= spec_first_queues(families@));
    queues
}

/// The queues that the renderer works with, one for each role. Two roles
/// may share a queue.
#[derive(Clone, Copy, Debug, PartialEq, Eq, Structural)]
pub struct Queues {
    pub graphics_queue: Queue,
    pub compute_queue: Queue,
    pub transfer_queue: Queue,
}

impl Queues {
    /// The roles given out over `queues`: none where no queue can take the
    /// graphics role; else the compute role falls back to the graphics
    /// queue and the transfer role to the compute queue.
    pub open spec fn spec_new(queues: Seq<Queue>) -> Option<Queues> {
        let families = spec_families_of(queues);
        match spec_graphics_family(families) {
            None => None,
            Some(g) => {
                let graphics_queue = queues[g];
                let compute_queue = match spec_compute_family(families) {
                    Some(c) => queues[c],
                    None => graphics_queue,
                };
                let transfer_queue = match spec_transfer_family(families) {
                    Some(t) => queues[t],
                    None => compute_queue,
                };
                Some(Queues { graphics_queue, compute_queue, transfer_queue })
            },
        }
    }

    /// Gives each role a queue out of those opened on the device.
    pub fn new(queues: &Vec<Queue>) -> (roles: Option<Queues>)
        ensures
            roles == Self::spec_new(queues@),
    {
        let mut families: Vec<QueueFamily> = Vec::new();
        let mut k: usize = 0;
        while k < queues.len()
            invariant
                0 <= k <= queues.len(),
                families@.len() == k,
                forall|i: int| 0 <= i < k ==> families@[i] == queues@[i].family,
            decreases queues.len() - k,
        {
            families.push(queues[k].family);
            k += 1;
        }
        assert(families@ =~= spec_families_of(queues@));
        let chosen = assign_queue_roles(&families);
        proof {
            lemma_first_true(Seq::new(families@.len(), |i: int| fits_graphics(families@[i])));
            lemma_first_true(
                Seq::new(
                    families@.len(),
                    |i: int|
                        Some(i) != spec_graphics_family(families@)
                            && families@[i].supports_compute,
                ),
            );
            lemma_first_true(
                Seq::new(
                    families@.len(),
                    |i: int|
                        Some(i) != spec_graphics_family(families@) && Some(i)
                            != spec_compute_family(families@) && families@[i].supports_transfers,
                ),
            );
        }
        match chosen.graphics {
            None => None,
            Some(g) => {
                let graphics_queue = queues[g];
                let compute_queue = match chosen.compute {
                    Some(c) => queues[c],
                    None => graphics_queue,
                };
                let transfer_queue = match chosen.transfer {
                    Some(t) => queues[t],
                    None => compute_queue,
                };
                Some(Queues { graphics_queue, compute_queue, transfer_queue })
            },
        }
    }

    /// Returns graphics queue.
    pub fn graphics_queue(&self) -> (queue: Queue)
        ensures
            queue == self.graphics_queue,
    {
        self.graphics_queue
    }

    /// Returns compute queue. Can be the same as graphics queue if one is not found.
    pub fn compute_queue(&self) -> (queue: Queue)
        ensures
            queue == self.compute_queue,
    {
        self.compute_queue
    }

    /// Returns transfer queue. Can be the same as compute queue if one is not found.
    pub fn transfer_queue(&self) -> (queue: Queue)
        ensures
            queue == self.transfer_queue,
    {
        self.transfer_queue
    }
}

/// Where no queue but the graphics queue can compute, the compute role
/// is the graphics queue; where no queue but those two can transfer, the
/// transfer role is the compute queue.
pub proof fn lemma_queue_fallback(queues: Seq<Queue>)
    ensures
        match Queues::spec_new(queues) {
            None => forall|i: int| 0 <= i < queues.len()
                ==> !fits_graphics(#[trigger] queues[i].family),
            Some(roles) => {
                let g = spec_graphics_family(spec_families_of(queues));
                let c = spec_compute_family(spec_families_of(queues));
                &&& (forall|i: int|
                    0 <= i < queues.len() && Some(i) != g
                        ==> !(#[trigger] queues[i]).family.supports_compute)
                    ==> roles.compute_queue == roles.graphics_queue
                &&& (forall|i: int|
                    0 <= i < queues.len() && Some(i) != g && Some(i) != c
                        ==> !(#[trigger] queues[i]).family.supports_transfers)
                    ==> roles.transfer_queue == roles.compute_queue
            },
        },
{
    let families = spec_families_of(queues);
    let g = spec_graphics_family(families);
    let c = spec_compute_family(families);
    lemma_first_true(Seq::new(families.len(), |i: int| fits_graphics(families[i])));
    lemma_first_true(Seq::new(families.len(), |i: int| Some(i) != g
        && families[i].supports_compute));
    lemma_first_true(
        Seq::new(
            families.len(),
            |i: int| Some(i) != g && Some(i) != c && families[i].supports_transfers,
        ),
    );
    if g is None {
        assert forall|i: int| 0 <= i < queues.len() implies !fits_graphics(
            #[trigger] queues[i].family,
        ) by {
            assert(!Seq::new(families.len(), |i: int| fits_graphics(families[i]))[i]);
        }
    } else {
        if forall|i: int|
            0 <= i < queues.len() && Some(i) != g
                ==> !(#[trigger] queues[i]).family.supports_compute {
            if let Some(ci) = c {
                assert(queues[ci].family.supports_compute);
            }
        }
        if forall|i: int|
            0 <= i < queues.len() && Some(i) != g && Some(i) != c ==> !(
            #[trigger] queues[i]).family.supports_transfers {
            if let Some(ti) = spec_transfer_family(families) {
                assert(queues[ti].family.supports_transfers);
            }
        }
    }
}

/// A family that was chosen for a role is among those that `find_queues`
/// asks for.
pub proof fn lemma_chosen_families_are_asked_for(families: Seq<QueueFamily>, i: int, n: int)
    requires
        0 <= i < n <= families.len(),
        spec_request_at(families, i) is Some,
    ensures
        spec_requests_upto(families, n).contains(spec_request_at(families, i)->0),
    decreases n,
{
    let request = spec_request_at(families, i)->0;
    let before = spec_requests_upto(families, n - 1);
    if i == n - 1 {
        assert(before.push(request).last() == request);
    } else {
        lemma_chosen_families_are_asked_for(families, i, n - 1);
        let k = choose|k: int| 0 <= k < before.len() && before[k] == request;
        match spec_request_at(families, n - 1) {
            Some(last) => {
                assert(before.push(last)[k] == request);
            },
            None => {},
        }
    }
}

/// Whether `find_queues` asks for a queue of this family.
pub open spec fn spec_is_asked_for(families: Seq<QueueFamily>, family: QueueFamily) -> bool {
    exists|k: int|
        0 <= k < spec_find_queues(families).len() && (#[trigger] spec_find_queues(
            families,
        )[k]).family == family
}

/// The queues that get the roles are first queues of families that
/// `find_queues` asks for: the device that is opened has them.
pub proof fn lemma_roles_are_asked_for(families: Seq<QueueFamily>)
    ensures
        match Queues::spec_new(spec_first_queues(families)) {
            Some(roles) => {
                &&& roles.graphics_queue.id_within_family == 0
                &&& roles.compute_queue.id_within_family == 0
                &&& roles.transfer_queue.id_within_family == 0
                &&& spec_is_asked_for(families, roles.graphics_queue.family)
                &&& spec_is_asked_for(families, roles.compute_queue.family)
                &&& spec_is_asked_for(families, roles.transfer_queue.family)
            },
            None => spec_graphics_family(families) is None,
        },
{
    let queues = spec_first_queues(families);
    assert(spec_families_of(queues) =~= families);
    let n = families.len() as int;
    let g = spec_graphics_family(families);
    let c = spec_compute_family(families);
    let t = spec_transfer_family(families);
    lemma_first_true(Seq::new(families.len(), |i: int| fits_graphics(families[i])));
    lemma_first_true(
        Seq::new(families.len(), |i: int| Some(i) != g && families[i].supports_compute),
    );
    lemma_first_true(
        Seq::new(
            families.len(),
            |i: int| Some(i) != g && Some(i) != c && families[i].supports_transfers,
        ),
    );
    if let Some(gi) = g {
        lemma_family_is_asked_for(families, gi);
        if let Some(ci) = c {
            lemma_family_is_asked_for(families, ci);
        }
        if let Some(ti) = t {
            lemma_family_is_asked_for(families, ti);
        }
    }
}

/// A family that was chosen for a role is asked for.
proof fn lemma_family_is_asked_for(families: Seq<QueueFamily>, i: int)
    requires
        0 <= i < families.len(),
        spec_request_at(families, i) is Some,
    ensures
        spec_is_asked_for(families, families[i]),
{
    lemma_chosen_families_are_asked_for(families, i, families.len() as int);
    let request = spec_request_at(families, i)->0;
    let requests = spec_find_queues(families);
    let k = choose|k: int| 0 <= k < requests.len() && requests[k] == request;
    assert(requests[k].family == families[i]);
}

} // verus!
