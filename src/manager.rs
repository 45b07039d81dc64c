use vstd::prelude::*;

use crate::error::AppError;
use crate::models::{created_record, CreateServiceRequest, RequestView, Service, ServiceView};

verus! {

/// What the container runtime did when asked to replace a service's container:
/// the old container is removed first, and a new one is created only after
/// that succeeded.
#[derive(Clone, Debug)]
pub enum Replacement {
    /// Removing the old container failed; the message says why.
    RemoveFailed(String),
    /// The old container is gone but creating the new one failed.
    CreateFailed(String),
    /// The new container exists under this id.
    Created(String),
}

/// The registry of service records, in insertion order.
#[derive(Debug)]
pub struct ServiceManager {
    services: Vec<Service>,
    file_path: String,
}

/// Some record is named `name`.
pub open spec fn name_taken(s: Seq<ServiceView>, name: Seq<char>) -> bool {
    exists|i: int| 0 <= i < s.len() && s[i].name == name
}

/// No two records share a name.
pub open spec fn names_unique(s: Seq<ServiceView>) -> bool {
    forall|i: int, j: int| 0 <= i < j < s.len() ==> s[i].name != s[j].name
}

/// No two records share an id.
pub open spec fn ids_unique(s: Seq<ServiceView>) -> bool {
    forall|i: int, j: int| 0 <= i < j < s.len() ==> s[i].id != s[j].id
}

/// Some record has id `id`.
pub open spec fn id_known(s: Seq<ServiceView>, id: Seq<char>) -> bool {
    exists|i: int| 0 <= i < s.len() && s[i].id == id
}

/// `i` is the position of the first record with id `id`.
pub open spec fn first_match(s: Seq<ServiceView>, id: Seq<char>, i: int) -> bool {
    &&& 0 <= i < s.len()
    &&& s[i].id == id
    &&& forall|j: int| 0 <= j < i ==> s[j].id != id
}

/// The records after a create of `req`, where `created` is what the runtime
/// answered (the new container's id, or a failure). A taken name or a failed
/// runtime call leaves the records as they were.
pub open spec fn create_effect(
    s: Seq<ServiceView>,
    req: RequestView,
    created: Result<Seq<char>, Seq<char>>,
) -> Seq<ServiceView> {
    if name_taken(s, req.name) {
        s
    } else {
        match created {
            Ok(id) => s.push(created_record(id, req)),
            Err(_) => s,
        }
    }
}

/// The records after a delete of the record at position `i`.
pub open spec fn delete_effect(s: Seq<ServiceView>, i: int) -> Seq<ServiceView> {
    s.remove(i)
}

impl View for ServiceManager {
    type V = Seq<ServiceView>;

    closed spec fn view(&self) -> Seq<ServiceView> {
        self.services@.map_values(|s: Service| s@)
    }
}

impl ServiceManager {
    pub closed spec fn path(&self) -> Seq<char> {
        self.file_path@
    }

    /// A registry holding `services`, as loaded from the file at `file_path`.
    pub fn new(file_path: &str, services: Vec<Service>) -> (r: ServiceManager)
        ensures
            r@ == services@.map_values(|s: Service| s@),
            r.path() == file_path@,
    {
        ServiceManager { services, file_path: file_path.to_owned() }
    }

    /// The file the registry is saved to.
    pub fn file_path(&self) -> (r: &str)
        ensures
            r@ == self.path(),
    {
        self.file_path.as_str()
    }

    /// A copy of every record, in insertion order.
    pub fn list_services(&self) -> (r: Vec<Service>)
        ensures
            r@.map_values(|s: Service| s@) == self@,
    {
        let mut r: Vec<Service> = Vec::new();
        let mut i: usize = 0;
        while i < self.services.len()
            invariant
                i <= self.services.len(),
                r@.len() == i,
                forall|j: int| 0 <= j < i ==> r@[j]@ == self.services@[j]@,
            decreases self.services.len() - i,
        {
            r.push(self.services[i].copy());
            i = i + 1;
        }
        assert(r@.map_values(|s: Service| s@) =~= self@);
        r
    }

    /// The position of the first record with id `id`.
    pub fn find_index(&self, id: &str) -> (r: Option<usize>)
        ensures
            match r {
                Some(i) => first_match(self@, id@, i as int),
                None => !id_known(self@, id@),
            },
    {
        let key = id.to_owned();
        let mut i: usize = 0;
        while i < self.services.len()
            invariant
                i <= self.services.len(),
                key@ == id@,
                forall|j: int| 0 <= j < i ==> self@[j].id != id@,
            decreases self.services.len() - i,
        {
            if self.services[i].id == key {
                return Some(i);
            }
            i = i + 1;
        }
        None
    }

    /// Whether some record is named `name`.
    pub fn has_name(&self, name: &String) -> (r: bool)
        ensures
            r == name_taken(self@, name@),
    {
        let mut i: usize = 0;
        while i < self.services.len()
            invariant
                i <= self.services.len(),
                forall|j: int| 0 <= j < i ==> self@[j].name != name@,
            decreases self.services.len() - i,
        {
            if self.services[i].name == *name {
                assert(self@[i as int].name == name@);
                return true;
            }
            i = i + 1;
        }
        false
    }

    /// The first step of a create: whether `request` may go on to the
    /// container runtime. A taken name fails with `Service`, holding the name.
    pub fn check_create(&self, request: &CreateServiceRequest) -> (r: Result<(), AppError>)
        ensures
            r is Ok <==> !name_taken(self@, request.name@),
            r is Err ==> (r matches Err(AppError::Service(n)) && n@ == request.name@),
    {
        if self.has_name(&request.name) {
            Err(AppError::Service(request.name.clone()))
        } else {
            Ok(())
        }
    }

    /// Adds the record for `request`, given what the container runtime
    /// answered when asked to create its container. A taken name fails with
    /// `Service`, a runtime failure with `Docker`; both leave the registry
    /// unchanged. On success the new record, with the runtime's id and status
    /// "created", is appended and returned.
    pub fn create_service(
        &mut self,
        request: CreateServiceRequest,
        created: Result<String, String>,
    ) -> (r: Result<Service, AppError>)
        ensures
            final(self)@ == create_effect(
                old(self)@,
                request@,
                match created {
                    Ok(id) => Ok(id@),
                    Err(m) => Err(m@),
                },
            ),
            final(self).path() == old(self).path(),
            name_taken(old(self)@, request.name@) ==> (r matches Err(AppError::Service(n))
                && n@ == request.name@),
            !name_taken(old(self)@, request.name@) ==> match created {
                Ok(id) => r matches Ok(s) && s@ == created_record(id@, request@),
                Err(m) => r matches Err(AppError::Docker(e)) && e@ == m@,
            },
            names_unique(old(self)@) ==> names_unique(final(self)@),
    {
        if self.has_name(&request.name) {
            return Err(AppError::Service(request.name));
        }
        match created {
            Err(m) => Err(AppError::Docker(m)),
            Ok(id) => {
                let ghost req_view = request@;
                let service = request.into_record(id);
                let copy = service.copy();
                self.services.push(service);
                assert(self@ =~= old(self)@.push(copy@));
                proof {
                    let s = self@;
                    let o = old(self)@;
                    if names_unique(o) {
                        assert forall|i: int, j: int| 0 <= i < j < s.len() implies s[i].name
                            != s[j].name by {
                            assert(s[i] == o[i]);
                            if j < s.len() - 1 {
                                assert(s[j] == o[j]);
                            } else {
                                assert(s[j].name == req_view.name);
                                assert(o[i].name != req_view.name);
                            }
                        }
                    }
                }
                Ok(copy)
            },
        }
    }

    /// The record with id `id` (the first such, in insertion order), or
    /// `NotFound` holding the id.
    pub fn get_service(&self, id: &str) -> (r: Result<Service, AppError>)
        ensures
            id_known(self@, id@) <==> r is Ok,
            match r {
                Ok(s) => exists|i: int| first_match(self@, id@, i) && s@ == self@[i],
                Err(e) => e matches AppError::NotFound(k) && k@ == id@,
            },
    {
        match self.find_index(id) {
            Some(i) => Ok(self.services[i].copy()),
            None => Err(AppError::NotFound(id.to_owned())),
        }
    }

    /// Replaces the record with id `id` by the record for `request`, given
    /// what the container runtime did (see `Replacement`). An unknown id
    /// fails with `NotFound`, a runtime failure with `Docker`; both leave the
    /// registry unchanged. On success the new record takes the old one's
    /// position, carries the new container's id and status "created", and is
    /// returned.
    pub fn update_service(
        &mut self,
        id: &str,
        request: CreateServiceRequest,
        replaced: Replacement,
    ) -> (r: Result<Service, AppError>)
        ensures
            final(self).path() == old(self).path(),
            !id_known(old(self)@, id@) ==> final(self)@ == old(self)@ && (r matches Err(
                AppError::NotFound(k),
            ) && k@ == id@),
            id_known(old(self)@, id@) ==> match replaced {
                Replacement::RemoveFailed(m) => final(self)@ == old(self)@ && (r matches Err(
                    AppError::Docker(e),
                ) && e@ == m@),
                Replacement::CreateFailed(m) => final(self)@ == old(self)@ && (r matches Err(
                    AppError::Docker(e),
                ) && e@ == m@),
                Replacement::Created(nid) => exists|i: int|
                    first_match(old(self)@, id@, i) && (r matches Ok(s) && s@ == created_record(
                        nid@,
                        request@,
                    ) && final(self)@ == old(self)@.update(i, s@)),
            },
    {
        let index = match self.find_index(id) {
            Some(i) => i,
            None => {
                return Err(AppError::NotFound(id.to_owned()));
            },
        };
        match replaced {
            Replacement::RemoveFailed(m) => Err(AppError::Docker(m)),
            Replacement::CreateFailed(m) => Err(AppError::Docker(m)),
            Replacement::Created(nid) => {
                let service = request.into_record(nid);
                let copy = service.copy();
                self.services.set(index, service);
                assert(self@ =~= old(self)@.update(index as int, copy@));
                Ok(copy)
            },
        }
    }

    /// Removes the record with id `id`, given what the container runtime
    /// answered when asked to remove its container. An unknown id fails with
    /// `NotFound`, a runtime failure with `Docker`; both leave the registry
    /// unchanged.
    pub fn delete_service(&mut self, id: &str, removed: Result<(), String>) -> (r: Result<
        (),
        AppError,
    >)
        ensures
            final(self).path() == old(self).path(),
            !id_known(old(self)@, id@) ==> final(self)@ == old(self)@ && (r matches Err(
                AppError::NotFound(k),
            ) && k@ == id@),
            id_known(old(self)@, id@) ==> match removed {
                Ok(_) => r is Ok && exists|i: int|
                    first_match(old(self)@, id@, i) && final(self)@ == delete_effect(
                        old(self)@,
                        i,
                    ),
                Err(m) => final(self)@ == old(self)@ && (r matches Err(AppError::Docker(e))
                    && e@ == m@),
            },
    {
        let index = match self.find_index(id) {
            Some(i) => i,
            None => {
                return Err(AppError::NotFound(id.to_owned()));
            },
        };
        match removed {
            Err(m) => Err(AppError::Docker(m)),
            Ok(()) => {
                self.services.remove(index);
                assert(self@ =~= old(self)@.remove(index as int));
                assert(first_match(old(self)@, id@, index as int) && self@ == delete_effect(
                    old(self)@,
                    index as int,
                ));
                Ok(())
            },
        }
    }
}

/// The records after applying the creates `reqs` in order, where `outcomes[k]`
/// is what the runtime answered for `reqs[k]`.
pub open spec fn apply_creates(
    s: Seq<ServiceView>,
    reqs: Seq<RequestView>,
    outcomes: Seq<Result<Seq<char>, Seq<char>>>,
) -> Seq<ServiceView>
    decreases reqs.len(),
{
    if reqs.len() == 0 || outcomes.len() == 0 {
        s
    } else {
        apply_creates(create_effect(s, reqs[0], outcomes[0]), reqs.drop_first(), outcomes.drop_first())
    }
}

/// A create never leaves two records with one name, and a create whose name
/// is taken changes nothing.
pub proof fn lemma_create_keeps_names_unique(
    s: Seq<ServiceView>,
    req: RequestView,
    created: Result<Seq<char>, Seq<char>>,
)
    requires
        names_unique(s),
    ensures
        names_unique(create_effect(s, req, created)),
        name_taken(s, req.name) ==> create_effect(s, req, created) == s,
{
    let t = create_effect(s, req, created);
    if !name_taken(s, req.name) && created is Ok {
        assert forall|i: int, j: int| 0 <= i < j < t.len() implies t[i].name != t[j].name by {
            assert(t[i] == s[i]);
            if j < s.len() {
                assert(t[j] == s[j]);
            } else {
                assert(s[i].name != req.name);
            }
        }
    }
}

/// Starting from records with unique names, any sequence of creates, each
/// with any runtime answer, leaves records with unique names.
pub proof fn lemma_creates_keep_names_unique(
    s: Seq<ServiceView>,
    reqs: Seq<RequestView>,
    outcomes: Seq<Result<Seq<char>, Seq<char>>>,
)
    requires
        names_unique(s),
    ensures
        names_unique(apply_creates(s, reqs, outcomes)),
    decreases reqs.len(),
{
    if reqs.len() != 0 && outcomes.len() != 0 {
        lemma_create_keeps_names_unique(s, reqs[0], outcomes[0]);
        lemma_creates_keep_names_unique(
            create_effect(s, reqs[0], outcomes[0]),
            reqs.drop_first(),
            outcomes.drop_first(),
        );
    }
}

/// An update that succeeds gives the record the runtime's new id: where ids
/// are unique and the new id differs from the old one, the old id is then
/// unknown, and the record at the old position carries the new id.
pub proof fn lemma_update_changes_identity(
    s: Seq<ServiceView>,
    id: Seq<char>,
    req: RequestView,
    new_id: Seq<char>,
    i: int,
)
    requires
        ids_unique(s),
        first_match(s, id, i),
        new_id != id,
    ensures
        !id_known(s.update(i, created_record(new_id, req)), id),
        s.update(i, created_record(new_id, req))[i].id == new_id,
        s.update(i, created_record(new_id, req)).len() == s.len(),
{
    let t = s.update(i, created_record(new_id, req));
    assert forall|j: int| 0 <= j < t.len() implies t[j].id != id by {
        if j != i {
            assert(t[j] == s[j]);
            if j < i {
                assert(s[j].id != s[i].id);
            } else {
                assert(s[i].id != s[j].id);
            }
        }
    }
}

/// Deleting a known id, where ids are unique, removes exactly one record, and
/// the id is unknown afterwards.
pub proof fn lemma_delete_removes_one(s: Seq<ServiceView>, id: Seq<char>, i: int)
    requires
        ids_unique(s),
        first_match(s, id, i),
    ensures
        delete_effect(s, i).len() == s.len() - 1,
        !id_known(delete_effect(s, i), id),
{
    let t = delete_effect(s, i);
    assert forall|j: int| 0 <= j < t.len() implies t[j].id != id by {
        if j < i {
            assert(t[j] == s[j]);
            assert(s[j].id != s[i].id);
        } else {
            assert(t[j] == s[j + 1]);
            assert(s[i].id != s[j + 1].id);
        }
    }
}

/// A registry rebuilt from the snapshot `list_services` gave holds exactly
/// the records, in order, of the registry it was taken from.
pub proof fn lemma_reload_snapshot(m: ServiceManager, snapshot: Vec<Service>, reloaded: ServiceManager)
    requires
        snapshot@.map_values(|s: Service| s@) == m@,
        reloaded@ == snapshot@.map_values(|s: Service| s@),
    ensures
        reloaded@ == m@,
        reloaded@.len() == m@.len(),
        forall|k: int| 0 <= k < m@.len() ==> reloaded@[k] == m@[k],
{
}

} // verus!
