use vstd::prelude::*;

use crate::simulation::civilian::names::{
    contact_domain_label, contact_domain_name, relation_type_label, relation_type_name, relationship_level_label,
    relationship_level_name,
};
use crate::simulation::civilian::{
    clamp_metric, contact_views, metric, same_records, CivView, CivilianState, Contact, ContactDomain, ContactView,
    JobRole, RelationType, RelationshipLevel,
};
use crate::text::{concat3, concat4, copy_str, signed_decimal, signed_decimal_text, str_eq, views};

verus! {

broadcast use vstd::string::group_string_axioms;

/// The circle a new contact comes from, by the civilian's line of work.
pub open spec fn domain_for_role(role: JobRole) -> ContactDomain {
    match role {
        JobRole::Lawyer | JobRole::Scientist | JobRole::Engineer | JobRole::Analyst | JobRole::Contractor
        | JobRole::Doctor | JobRole::Electrician | JobRole::SoftwareDeveloper | JobRole::Accountant
        | JobRole::Pharmacist | JobRole::Architect | JobRole::Dentist | JobRole::Pilot => ContactDomain::Professional,
        JobRole::Journalist | JobRole::Photographer => ContactDomain::Media,
        _ => ContactDomain::Community,
    }
}

pub fn default_contact_domain(role: JobRole) -> (d: ContactDomain)
    ensures
        d == domain_for_role(role),
{
    match role {
        JobRole::Lawyer | JobRole::Scientist | JobRole::Engineer | JobRole::Analyst | JobRole::Contractor
        | JobRole::Doctor | JobRole::Electrician | JobRole::SoftwareDeveloper | JobRole::Accountant
        | JobRole::Pharmacist | JobRole::Architect | JobRole::Dentist | JobRole::Pilot => ContactDomain::Professional,
        JobRole::Journalist | JobRole::Photographer => ContactDomain::Media,
        JobRole::Artist | JobRole::Farmer => ContactDomain::Community,
        _ => ContactDomain::Community,
    }
}

/// Professional contacts are colleagues; the rest are peers.
pub open spec fn relation_for_domain(domain: ContactDomain) -> RelationType {
    match domain {
        ContactDomain::Professional => RelationType::Colleague,
        _ => RelationType::Peer,
    }
}

pub fn default_relation_type(domain: ContactDomain) -> (t: RelationType)
    ensures
        t == relation_for_domain(domain),
{
    match domain {
        ContactDomain::Professional => RelationType::Colleague,
        _ => RelationType::Peer,
    }
}

/// The bond a relationship level stands for.
pub open spec fn bond_for_level(level: RelationshipLevel) -> i32 {
    match level {
        RelationshipLevel::Stranger => 15,
        RelationshipLevel::Acquaintance => 35,
        RelationshipLevel::Friend => 55,
        RelationshipLevel::Confidant => 70,
        RelationshipLevel::Ally => 85,
    }
}

fn level_bond(level: RelationshipLevel) -> (b: i32)
    ensures
        b == bond_for_level(level),
{
    match level {
        RelationshipLevel::Stranger => 15,
        RelationshipLevel::Acquaintance => 35,
        RelationshipLevel::Friend => 55,
        RelationshipLevel::Confidant => 70,
        RelationshipLevel::Ally => 85,
    }
}

/// The relationship level a bond amounts to; a bond outside `0..=79` counts as an
/// ally.
pub open spec fn level_for_bond(bond: i32) -> RelationshipLevel {
    if 0 <= bond <= 24 {
        RelationshipLevel::Stranger
    } else if 25 <= bond <= 44 {
        RelationshipLevel::Acquaintance
    } else if 45 <= bond <= 64 {
        RelationshipLevel::Friend
    } else if 65 <= bond <= 79 {
        RelationshipLevel::Confidant
    } else {
        RelationshipLevel::Ally
    }
}

pub fn relationship_level_from_bond(bond: i32) -> (l: RelationshipLevel)
    ensures
        l == level_for_bond(bond),
{
    if 0 <= bond && bond <= 24 {
        RelationshipLevel::Stranger
    } else if 25 <= bond && bond <= 44 {
        RelationshipLevel::Acquaintance
    } else if 45 <= bond && bond <= 64 {
        RelationshipLevel::Friend
    } else if 65 <= bond && bond <= 79 {
        RelationshipLevel::Confidant
    } else {
        RelationshipLevel::Ally
    }
}

/// The first contact with this name.
pub open spec fn find_contact(cs: Seq<ContactView>, name: Seq<char>) -> Option<int>
    decreases cs.len(),
{
    if cs.len() == 0 {
        None
    } else {
        match find_contact(cs.drop_last(), name) {
            Some(i) => Some(i),
            None => if cs.last().name == name {
                Some(cs.len() - 1)
            } else {
                None
            },
        }
    }
}

pub proof fn lemma_find_contact(cs: Seq<ContactView>, name: Seq<char>)
    ensures
        match find_contact(cs, name) {
            Some(i) => 0 <= i < cs.len() && cs[i].name == name,
            None => forall|j: int| 0 <= j < cs.len() ==> #[trigger] cs[j].name != name,
        },
    decreases cs.len(),
{
    if cs.len() > 0 {
        lemma_find_contact(cs.drop_last(), name);
        assert forall|j: int| 0 <= j < cs.len() - 1 implies #[trigger] cs[j] == cs.drop_last()[j] by {}
    }
}

proof fn lemma_find_prefix(cs: Seq<ContactView>, name: Seq<char>, n: int)
    requires
        0 <= n <= cs.len(),
        find_contact(cs.take(n), name) is Some,
    ensures
        find_contact(cs, name) == find_contact(cs.take(n), name),
    decreases cs.len() - n,
{
    if n < cs.len() {
        assert(cs.take(n + 1).drop_last() =~= cs.take(n));
        lemma_find_prefix(cs, name, n + 1);
    } else {
        assert(cs.take(n) =~= cs);
    }
}

/// The contacts after meeting `name` at a level: a known contact takes the level and
/// any domain or relation given; a new one is added with the bond of its level, an
/// influence of ten, and the domain and relation its circle suggests unless given.
pub open spec fn upserted(
    cs: Seq<ContactView>,
    name: Seq<char>,
    level: RelationshipLevel,
    domain: Option<ContactDomain>,
    relation_type: Option<RelationType>,
    day: u32,
    role: JobRole,
) -> Seq<ContactView> {
    match find_contact(cs, name) {
        Some(i) => cs.update(
            i,
            ContactView {
                level,
                domain: match domain { Some(d) => d, None => cs[i].domain },
                relation_type: match relation_type { Some(r) => r, None => cs[i].relation_type },
                last_interaction_day: day,
                ..cs[i]
            },
        ),
        None => {
            let d = match domain { Some(d) => d, None => domain_for_role(role) };
            let r = match relation_type { Some(r) => r, None => relation_for_domain(d) };
            cs.push(
                ContactView {
                    name,
                    level,
                    domain: d,
                    relation_type: r,
                    bond: bond_for_level(level),
                    influence: 10,
                    last_interaction_day: day,
                },
            )
        },
    }
}

/// The message noting a domain change.
pub open spec fn domain_message(name: Seq<char>, d: ContactDomain) -> Seq<char> {
    "contact "@ + name + " domain -> "@ + contact_domain_name(d)
}

/// The message noting a relation change.
pub open spec fn relation_message(name: Seq<char>, r: RelationType) -> Seq<char> {
    "contact "@ + name + " relation -> "@ + relation_type_name(r)
}

/// The messages of meeting `name` at a level.
pub open spec fn upsert_log(
    cs: Seq<ContactView>,
    name: Seq<char>,
    level: RelationshipLevel,
    domain: Option<ContactDomain>,
    relation_type: Option<RelationType>,
) -> Seq<Seq<char>> {
    match find_contact(cs, name) {
        Some(i) => {
            let d_msg: Seq<Seq<char>> = match domain {
                Some(d) => seq![domain_message(name, d)],
                None => Seq::empty(),
            };
            let r_msg: Seq<Seq<char>> = match relation_type {
                Some(r) => seq![relation_message(name, r)],
                None => Seq::empty(),
            };
            d_msg + r_msg + seq!["contact "@ + name + " -> "@ + relationship_level_name(level)]
        },
        None => seq!["contact added "@ + name + " ("@ + relationship_level_name(level) + ")"@],
    }
}

/// The contacts with `name` present: unchanged if known, else met as an acquaintance.
pub open spec fn with_contact(cs: Seq<ContactView>, name: Seq<char>, day: u32, role: JobRole) -> Seq<ContactView> {
    match find_contact(cs, name) {
        Some(_) => cs,
        None => upserted(cs, name, RelationshipLevel::Acquaintance, None, None, day, role),
    }
}

/// The messages of making sure `name` is known.
pub open spec fn with_contact_log(cs: Seq<ContactView>, name: Seq<char>) -> Seq<Seq<char>> {
    match find_contact(cs, name) {
        Some(_) => Seq::empty(),
        None => upsert_log(cs, name, RelationshipLevel::Acquaintance, None, None),
    }
}

/// Where `name` stands among the contacts once it is known.
pub open spec fn contact_slot(cs: Seq<ContactView>, name: Seq<char>) -> int {
    match find_contact(cs, name) {
        Some(i) => i,
        None => cs.len() as int,
    }
}

/// The bond after a relationship changes by `delta`, before it is limited.
pub open spec fn raw_bond_after(cs: Seq<ContactView>, name: Seq<char>, delta: i32, day: u32, role: JobRole) -> int {
    with_contact(cs, name, day, role)[contact_slot(cs, name)].bond + delta
}

/// The influence after it changes by `delta`, before it is limited.
pub open spec fn raw_influence_after(cs: Seq<ContactView>, name: Seq<char>, delta: i32, day: u32, role: JobRole) -> int {
    with_contact(cs, name, day, role)[contact_slot(cs, name)].influence + delta
}

/// The contacts after the relationship with `name` changes by `delta`.
pub open spec fn relationship_adjusted(cs: Seq<ContactView>, name: Seq<char>, delta: i32, day: u32, role: JobRole) -> Seq<ContactView> {
    let cs1 = with_contact(cs, name, day, role);
    let i = contact_slot(cs, name);
    let bond = metric(raw_bond_after(cs, name, delta, day, role));
    cs1.update(i, ContactView { bond, level: level_for_bond(bond), last_interaction_day: day, ..cs1[i] })
}

/// The contacts after the influence of `name` changes by `delta`.
pub open spec fn influence_adjusted(cs: Seq<ContactView>, name: Seq<char>, delta: i32, day: u32, role: JobRole) -> Seq<ContactView> {
    let cs1 = with_contact(cs, name, day, role);
    let i = contact_slot(cs, name);
    cs1.update(
        i,
        ContactView {
            influence: metric(raw_influence_after(cs, name, delta, day, role)),
            last_interaction_day: day,
            ..cs1[i]
        },
    )
}

/// The contacts after the relationship with `name` is set to a level.
pub open spec fn level_set(cs: Seq<ContactView>, name: Seq<char>, level: RelationshipLevel, day: u32, role: JobRole) -> Seq<ContactView> {
    match find_contact(cs, name) {
        Some(i) => cs.update(i, ContactView { level, bond: bond_for_level(level), last_interaction_day: day, ..cs[i] }),
        None => upserted(cs, name, level, None, None, day, role),
    }
}

pub open spec fn level_set_log(cs: Seq<ContactView>, name: Seq<char>, level: RelationshipLevel) -> Seq<Seq<char>> {
    match find_contact(cs, name) {
        Some(_) => seq!["relationship level "@ + name + " -> "@ + relationship_level_name(level)],
        None => upsert_log(cs, name, level, None, None),
    }
}

/// The contacts after `name` is placed in a domain.
pub open spec fn domain_set(cs: Seq<ContactView>, name: Seq<char>, domain: ContactDomain, day: u32, role: JobRole) -> Seq<ContactView> {
    match find_contact(cs, name) {
        Some(i) => cs.update(i, ContactView { domain, last_interaction_day: day, ..cs[i] }),
        None => upserted(cs, name, RelationshipLevel::Acquaintance, Some(domain), None, day, role),
    }
}

pub open spec fn domain_set_log(cs: Seq<ContactView>, name: Seq<char>, domain: ContactDomain) -> Seq<Seq<char>> {
    match find_contact(cs, name) {
        Some(_) => seq![domain_message(name, domain)],
        None => upsert_log(cs, name, RelationshipLevel::Acquaintance, Some(domain), None),
    }
}

/// The contacts after the relation with `name` is set.
pub open spec fn relation_set(cs: Seq<ContactView>, name: Seq<char>, relation_type: RelationType, day: u32, role: JobRole) -> Seq<ContactView> {
    match find_contact(cs, name) {
        Some(i) => cs.update(i, ContactView { relation_type, last_interaction_day: day, ..cs[i] }),
        None => upserted(cs, name, RelationshipLevel::Acquaintance, None, Some(relation_type), day, role),
    }
}

pub open spec fn relation_set_log(cs: Seq<ContactView>, name: Seq<char>, relation_type: RelationType) -> Seq<Seq<char>> {
    match find_contact(cs, name) {
        Some(_) => seq![relation_message(name, relation_type)],
        None => upsert_log(cs, name, RelationshipLevel::Acquaintance, None, Some(relation_type)),
    }
}

/// `after` is `before` with other contacts and nothing else changed.
pub open spec fn contacts_changed(before: CivilianState, after: CivilianState, contacts: Seq<ContactView>) -> bool {
    &&& after@ == CivView { contacts, ..before@ }
    &&& same_records(before, after)
}

/// The position of the first contact named `name`.
pub fn contact_index(cs: &Vec<Contact>, name: &str) -> (r: Option<usize>)
    ensures
        match r {
            Some(i) => find_contact(contact_views(cs@), name@) == Some(i as int) && i < cs@.len()
                && cs@[i as int].name@ == name@,
            None => find_contact(contact_views(cs@), name@) is None,
        },
{
    let ghost vs = contact_views(cs@);
    let mut i: usize = 0;
    assert(vs.take(0) =~= Seq::<ContactView>::empty());
    while i < cs.len()
        invariant
            vs == contact_views(cs@),
            i <= vs.len(),
            find_contact(vs.take(i as int), name@) is None,
        decreases vs.len() - i,
    {
        assert(vs.take(i + 1).drop_last() =~= vs.take(i as int));
        assert(vs[i as int].name == cs@[i as int].name@);
        if str_eq(cs[i].name.as_str(), name) {
            proof {
                lemma_find_prefix(vs, name@, i + 1);
            }
            return Some(i);
        }
        i = i + 1;
    }
    assert(vs.take(i as int) =~= vs);
    None
}

fn upsert_in(
    cs: &mut Vec<Contact>,
    name: &str,
    level: RelationshipLevel,
    domain: Option<ContactDomain>,
    relation_type: Option<RelationType>,
    day: u32,
    role: JobRole,
    applied: &mut Vec<String>,
)
    ensures
        contact_views(final(cs)@) == upserted(contact_views(old(cs)@), name@, level, domain, relation_type, day, role),
        views(final(applied)@) == views(old(applied)@) + upsert_log(contact_views(old(cs)@), name@, level, domain, relation_type),
{
    let ghost vs = contact_views(cs@);
    let ghost log0 = views(applied@);
    match contact_index(cs, name) {
        Some(i) => {
            let c = &mut cs[i];
            c.level = level;
            if let Some(d) = domain {
                c.domain = d;
                applied.push(concat4("contact ", name, " domain -> ", contact_domain_label(d)));
            }
            if let Some(r) = relation_type {
                c.relation_type = r;
                applied.push(concat4("contact ", name, " relation -> ", relation_type_label(r)));
            }
            c.last_interaction_day = day;
            applied.push(concat4("contact ", name, " -> ", relationship_level_label(level)));
            assert(contact_views(cs@) =~= upserted(vs, name@, level, domain, relation_type, day, role));
            assert(views(applied@) =~= log0 + upsert_log(vs, name@, level, domain, relation_type));
        },
        None => {
            let d = match domain {
                Some(d) => d,
                None => default_contact_domain(role),
            };
            let r = match relation_type {
                Some(r) => r,
                None => default_relation_type(d),
            };
            let bond = level_bond(level);
            cs.push(Contact { name: copy_str(name), level, domain: d, relation_type: r, bond, influence: 10, last_interaction_day: day });
            let mut msg = concat4("contact added ", name, " (", relationship_level_label(level));
            msg.append(")");
            applied.push(msg);
            assert(contact_views(cs@) =~= upserted(vs, name@, level, domain, relation_type, day, role));
            assert(views(applied@) =~= log0 + upsert_log(vs, name@, level, domain, relation_type));
        },
    }
}

/// The position of `name`, adding it as an acquaintance if it is not known.
fn ensure_in(cs: &mut Vec<Contact>, name: &str, day: u32, role: JobRole, applied: &mut Vec<String>) -> (i: usize)
    ensures
        contact_views(final(cs)@) == with_contact(contact_views(old(cs)@), name@, day, role),
        views(final(applied)@) == views(old(applied)@) + with_contact_log(contact_views(old(cs)@), name@),
        i == contact_slot(contact_views(old(cs)@), name@),
        i < final(cs)@.len(),
{
    match contact_index(cs, name) {
        Some(i) => {
            assert(views(applied@) =~= views(applied@) + Seq::<Seq<char>>::empty());
            i
        },
        None => {
            let n = cs.len();
            upsert_in(cs, name, RelationshipLevel::Acquaintance, None, None, day, role, applied);
            assert(contact_views(cs@).len() == cs@.len());
            n
        },
    }
}

fn adjust_relationship_in(cs: &mut Vec<Contact>, name: &str, delta: i32, day: u32, role: JobRole, applied: &mut Vec<String>)
    requires
        i32::MIN <= raw_bond_after(contact_views(old(cs)@), name@, delta, day, role) <= i32::MAX,
    ensures
        contact_views(final(cs)@) == relationship_adjusted(contact_views(old(cs)@), name@, delta, day, role),
        views(final(applied)@) == views(old(applied)@) + with_contact_log(contact_views(old(cs)@), name@).push(
            "relationship "@ + name@ + " "@ + signed_decimal(delta as int),
        ),
{
    let ghost vs = contact_views(cs@);
    let i = ensure_in(cs, name, day, role, applied);
    let ghost log1 = views(applied@);
    let ghost vs1 = contact_views(cs@);
    assert(vs1[i as int] == cs@[i as int]@);
    let c = &mut cs[i];
    let bond = clamp_metric(c.bond + delta);
    c.bond = bond;
    c.level = relationship_level_from_bond(bond);
    c.last_interaction_day = day;
    applied.push(concat4("relationship ", name, " ", signed_decimal_text(delta as i64).as_str()));
    assert(contact_views(cs@) =~= relationship_adjusted(vs, name@, delta, day, role));
    assert(views(applied@) =~= log1.push("relationship "@ + name@ + " "@ + signed_decimal(delta as int)));
}

fn adjust_influence_in(cs: &mut Vec<Contact>, name: &str, delta: i32, day: u32, role: JobRole, applied: &mut Vec<String>)
    requires
        i32::MIN <= raw_influence_after(contact_views(old(cs)@), name@, delta, day, role) <= i32::MAX,
    ensures
        contact_views(final(cs)@) == influence_adjusted(contact_views(old(cs)@), name@, delta, day, role),
        views(final(applied)@) == views(old(applied)@) + with_contact_log(contact_views(old(cs)@), name@).push(
            "contact influence "@ + name@ + " "@ + signed_decimal(delta as int),
        ),
{
    let ghost vs = contact_views(cs@);
    let i = ensure_in(cs, name, day, role, applied);
    let ghost log1 = views(applied@);
    let ghost vs1 = contact_views(cs@);
    assert(vs1[i as int] == cs@[i as int]@);
    let c = &mut cs[i];
    c.influence = clamp_metric(c.influence + delta);
    c.last_interaction_day = day;
    applied.push(concat4("contact influence ", name, " ", signed_decimal_text(delta as i64).as_str()));
    assert(contact_views(cs@) =~= influence_adjusted(vs, name@, delta, day, role));
    assert(views(applied@) =~= log1.push("contact influence "@ + name@ + " "@ + signed_decimal(delta as int)));
}

fn set_level_in(cs: &mut Vec<Contact>, name: &str, level: RelationshipLevel, day: u32, role: JobRole, applied: &mut Vec<String>)
    ensures
        contact_views(final(cs)@) == level_set(contact_views(old(cs)@), name@, level, day, role),
        views(final(applied)@) == views(old(applied)@) + level_set_log(contact_views(old(cs)@), name@, level),
{
    let ghost vs = contact_views(cs@);
    let ghost log0 = views(applied@);
    match contact_index(cs, name) {
        Some(i) => {
            let c = &mut cs[i];
            c.level = level;
            c.bond = level_bond(level);
            c.last_interaction_day = day;
            applied.push(concat4("relationship level ", name, " -> ", relationship_level_label(level)));
            assert(contact_views(cs@) =~= level_set(vs, name@, level, day, role));
            assert(views(applied@) =~= log0 + level_set_log(vs, name@, level));
        },
        None => {
            upsert_in(cs, name, level, None, None, day, role, applied);
        },
    }
}

fn set_domain_in(cs: &mut Vec<Contact>, name: &str, domain: ContactDomain, day: u32, role: JobRole, applied: &mut Vec<String>)
    ensures
        contact_views(final(cs)@) == domain_set(contact_views(old(cs)@), name@, domain, day, role),
        views(final(applied)@) == views(old(applied)@) + domain_set_log(contact_views(old(cs)@), name@, domain),
{
    let ghost vs = contact_views(cs@);
    let ghost log0 = views(applied@);
    match contact_index(cs, name) {
        Some(i) => {
            let c = &mut cs[i];
            c.domain = domain;
            c.last_interaction_day = day;
            applied.push(concat4("contact ", name, " domain -> ", contact_domain_label(domain)));
            assert(contact_views(cs@) =~= domain_set(vs, name@, domain, day, role));
            assert(views(applied@) =~= log0 + domain_set_log(vs, name@, domain));
        },
        None => {
            upsert_in(cs, name, RelationshipLevel::Acquaintance, Some(domain), None, day, role, applied);
        },
    }
}

fn set_relation_in(cs: &mut Vec<Contact>, name: &str, relation_type: RelationType, day: u32, role: JobRole, applied: &mut Vec<String>)
    ensures
        contact_views(final(cs)@) == relation_set(contact_views(old(cs)@), name@, relation_type, day, role),
        views(final(applied)@) == views(old(applied)@) + relation_set_log(contact_views(old(cs)@), name@, relation_type),
{
    let ghost vs = contact_views(cs@);
    let ghost log0 = views(applied@);
    match contact_index(cs, name) {
        Some(i) => {
            let c = &mut cs[i];
            c.relation_type = relation_type;
            c.last_interaction_day = day;
            applied.push(concat4("contact ", name, " relation -> ", relation_type_label(relation_type)));
            assert(contact_views(cs@) =~= relation_set(vs, name@, relation_type, day, role));
            assert(views(applied@) =~= log0 + relation_set_log(vs, name@, relation_type));
        },
        None => {
            upsert_in(cs, name, RelationshipLevel::Acquaintance, None, Some(relation_type), day, role, applied);
        },
    }
}

impl CivilianState {
    /// Meets `name` at a level, as `upserted` describes, noting what changed.
    pub fn upsert_contact(
        &mut self,
        name: &str,
        level: RelationshipLevel,
        domain: Option<ContactDomain>,
        relation_type: Option<RelationType>,
        applied: &mut Vec<String>,
    )
        ensures
            contacts_changed(
                *old(self),
                *final(self),
                upserted(old(self)@.contacts, name@, level, domain, relation_type, old(self).last_day, old(self).job.role),
            ),
            views(final(applied)@) == views(old(applied)@) + upsert_log(old(self)@.contacts, name@, level, domain, relation_type),
    {
        let day = self.last_day;
        let role = self.job.role;
        upsert_in(&mut self.contacts, name, level, domain, relation_type, day, role, applied);
    }

    /// Changes the bond with `name` by `delta`, meeting them first if they are unknown.
    pub fn adjust_relationship(&mut self, name: &str, delta: i32, applied: &mut Vec<String>)
        requires
            i32::MIN <= raw_bond_after(old(self)@.contacts, name@, delta, old(self).last_day, old(self).job.role) <= i32::MAX,
        ensures
            contacts_changed(
                *old(self),
                *final(self),
                relationship_adjusted(old(self)@.contacts, name@, delta, old(self).last_day, old(self).job.role),
            ),
            views(final(applied)@) == views(old(applied)@) + with_contact_log(old(self)@.contacts, name@).push(
                "relationship "@ + name@ + " "@ + signed_decimal(delta as int),
            ),
    {
        let day = self.last_day;
        let role = self.job.role;
        adjust_relationship_in(&mut self.contacts, name, delta, day, role, applied);
    }

    pub fn set_relationship_level(&mut self, name: &str, level: RelationshipLevel, applied: &mut Vec<String>)
        ensures
            contacts_changed(
                *old(self),
                *final(self),
                level_set(old(self)@.contacts, name@, level, old(self).last_day, old(self).job.role),
            ),
            views(final(applied)@) == views(old(applied)@) + level_set_log(old(self)@.contacts, name@, level),
    {
        let day = self.last_day;
        let role = self.job.role;
        set_level_in(&mut self.contacts, name, level, day, role, applied);
    }

    /// Changes the influence of `name` by `delta`, meeting them first if they are
    /// unknown.
    pub fn adjust_contact_influence(&mut self, name: &str, delta: i32, applied: &mut Vec<String>)
        requires
            i32::MIN <= raw_influence_after(old(self)@.contacts, name@, delta, old(self).last_day, old(self).job.role) <= i32::MAX,
        ensures
            contacts_changed(
                *old(self),
                *final(self),
                influence_adjusted(old(self)@.contacts, name@, delta, old(self).last_day, old(self).job.role),
            ),
            views(final(applied)@) == views(old(applied)@) + with_contact_log(old(self)@.contacts, name@).push(
                "contact influence "@ + name@ + " "@ + signed_decimal(delta as int),
            ),
    {
        let day = self.last_day;
        let role = self.job.role;
        adjust_influence_in(&mut self.contacts, name, delta, day, role, applied);
    }

    pub fn set_contact_domain(&mut self, name: &str, domain: ContactDomain, applied: &mut Vec<String>)
        ensures
            contacts_changed(
                *old(self),
                *final(self),
                domain_set(old(self)@.contacts, name@, domain, old(self).last_day, old(self).job.role),
            ),
            views(final(applied)@) == views(old(applied)@) + domain_set_log(old(self)@.contacts, name@, domain),
    {
        let day = self.last_day;
        let role = self.job.role;
        set_domain_in(&mut self.contacts, name, domain, day, role, applied);
    }

    pub fn set_relation_type(&mut self, name: &str, relation_type: RelationType, applied: &mut Vec<String>)
        ensures
            contacts_changed(
                *old(self),
                *final(self),
                relation_set(old(self)@.contacts, name@, relation_type, old(self).last_day, old(self).job.role),
            ),
            views(final(applied)@) == views(old(applied)@) + relation_set_log(old(self)@.contacts, name@, relation_type),
    {
        let day = self.last_day;
        let role = self.job.role;
        set_relation_in(&mut self.contacts, name, relation_type, day, role, applied);
    }
}

} // verus!
