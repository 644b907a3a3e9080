//! Modules of operations: the operations of a document in order, the plan for
//! the operations that one deployable unit serves, and the dispatch from an
//! operation id to the wrapper that handles it.
use vstd::prelude::*;
use vstd::string::*;
use crate::document::{
    Components, Method, OpenApi, Operation, OperationView, PathItemView, RefOr, RefOrView,
};
use crate::ir::{CompileError, CompileErrorKind, CompileErrorView, CompiledType, CompiledTypeView};
use crate::model::{agrees, copy_text, error, push_item};
use crate::model_spec::fail;
use crate::operation::gen_api_operation;
use crate::operation_spec::{operation_plan, plain_ident};
use crate::order::{is_sorted_order, sorted_order, sorted_positions};
use crate::outside::{parse_ident, pascal_case, to_pascal_case};
use crate::plan::{ApiOperation, ApiOperationView};
use crate::text::{concat2, str_eq};

verus! {

/// One operation of a document with the method and path it stands under.
#[derive(Debug, PartialEq, Eq)]
pub struct PathOperation<'a> {
    pub method: Method,
    pub op: &'a Operation,
    pub request_path: &'a String,
}

pub struct PathOperationView {
    pub method: Method,
    pub op: OperationView,
    pub request_path: Seq<char>,
}

impl<'a> DeepView for PathOperation<'a> {
    type V = PathOperationView;

    open spec fn deep_view(&self) -> PathOperationView {
        PathOperationView {
            method: self.method,
            op: self.op.deep_view(),
            request_path: self.request_path@,
        }
    }
}

/// The operations of one path, appended to `acc` in the order in which the
/// path holds them.
pub open spec fn path_operations(
    path: Seq<char>,
    operations: Seq<(Method, OperationView)>,
    acc: Seq<PathOperationView>,
) -> Seq<PathOperationView>
    decreases operations.len(),
{
    if operations.len() == 0 {
        acc
    } else {
        path_operations(
            path,
            operations.drop_first(),
            acc.push(
                PathOperationView { method: operations[0].0, op: operations[0].1, request_path: path },
            ),
        )
    }
}

/// All operations of the paths of a document, path by path, appended to `acc`.
/// A path that is a reference cannot be followed.
pub open spec fn all_operations(
    paths: Seq<(Seq<char>, RefOrView<PathItemView>)>,
    acc: Seq<PathOperationView>,
) -> Result<Seq<PathOperationView>, CompileErrorView>
    decreases paths.len(),
{
    if paths.len() == 0 {
        Ok(acc)
    } else {
        match paths[0].1 {
            RefOrView::Reference(reference) => fail(
                CompileErrorKind::UnresolvedReference,
                reference,
            ),
            RefOrView::Item(item) => all_operations(
                paths.drop_first(),
                path_operations(paths[0].0, item.operations, acc),
            ),
        }
    }
}

/// All operations of a document as one list: path by path in the order of the
/// document, and within a path in the order in which the path holds them.
#[verifier::loop_isolation(false)]
pub fn collect_operations<'a>(openapi: &'a OpenApi) -> (res: Result<
    Vec<PathOperation<'a>>,
    CompileError,
>)
    ensures
        agrees(res, all_operations(openapi.paths.deep_view(), Seq::empty())),
{
    let paths = &openapi.paths;
    let mut out: Vec<PathOperation<'a>> = Vec::new();
    let mut i: usize = 0;
    proof {
        assert(out.deep_view() =~= Seq::empty());
        assert(paths.deep_view().skip(0) =~= paths.deep_view());
    }
    while i < paths.len()
        invariant
            i <= paths.len(),
            all_operations(paths.deep_view(), Seq::empty()) == all_operations(
                paths.deep_view().skip(i as int),
                out.deep_view(),
            ),
        decreases paths.len() - i,
    {
        proof {
            let rest = paths.deep_view().skip(i as int);
            assert(rest[0] == paths.deep_view()[i as int]);
            assert(rest.drop_first() =~= paths.deep_view().skip(i as int + 1));
            assert(paths.deep_view()[i as int] == (paths[i as int].0@, paths[i as int].1.deep_view()));
        }
        match &paths[i].1 {
            RefOr::Reference(reference) => {
                return Err(error(CompileErrorKind::UnresolvedReference, reference.as_str()));
            },
            RefOr::Item(item) => {
                let operations = &item.operations;
                let ghost start = out.deep_view();
                let mut j: usize = 0;
                proof {
                    assert(operations.deep_view().skip(0) =~= operations.deep_view());
                }
                while j < operations.len()
                    invariant
                        j <= operations.len(),
                        path_operations(paths[i as int].0@, operations.deep_view(), start)
                            == path_operations(
                            paths[i as int].0@,
                            operations.deep_view().skip(j as int),
                            out.deep_view(),
                        ),
                    decreases operations.len() - j,
                {
                    proof {
                        let rest = operations.deep_view().skip(j as int);
                        assert(rest[0] == operations.deep_view()[j as int]);
                        assert(rest.drop_first() =~= operations.deep_view().skip(j as int + 1));
                        assert(operations.deep_view()[j as int] == (
                            operations[j as int].0,
                            operations[j as int].1.deep_view(),
                        ));
                    }
                    push_item(
                        &mut out,
                        PathOperation {
                            method: operations[j].0,
                            op: &operations[j].1,
                            request_path: &paths[i].0,
                        },
                    );
                    j += 1;
                }
            },
        }
        i += 1;
    }
    Ok(out)
}

/// The plans of the operations that one deployable unit serves.
#[derive(Debug, PartialEq, Eq)]
pub struct ModulePlan {
    pub mod_name: String,
    /// The name of the type that implements the handlers.
    pub handler_name: String,
    pub operations: Vec<ApiOperation>,
}

pub struct ModulePlanView {
    pub mod_name: Seq<char>,
    pub handler_name: Seq<char>,
    pub operations: Seq<ApiOperationView>,
}

impl DeepView for ModulePlan {
    type V = ModulePlanView;

    open spec fn deep_view(&self) -> ModulePlanView {
        ModulePlanView {
            mod_name: self.mod_name@,
            handler_name: self.handler_name@,
            operations: self.operations.deep_view(),
        }
    }
}

/// The plans for a list of operations, in order, after the plans `acc`.
pub open spec fn operation_plans(
    components: crate::document::ComponentsView,
    models: Seq<CompiledTypeView>,
    operations: Seq<PathOperationView>,
    acc: Seq<ApiOperationView>,
) -> Result<Seq<ApiOperationView>, CompileErrorView>
    decreases operations.len(),
{
    if operations.len() == 0 {
        Ok(acc)
    } else {
        match operation_plan(
            components,
            models,
            operations[0].method,
            operations[0].request_path,
            operations[0].op,
        ) {
            Err(e) => Err(e),
            Ok(plan) => operation_plans(components, models, operations.drop_first(), acc.push(plan)),
        }
    }
}

/// The plan of a module: its name must be an identifier as it stands, the
/// type of its handlers is named after it, and its operations are planned in
/// the order given.
pub open spec fn module_plan(
    components: crate::document::ComponentsView,
    models: Seq<CompiledTypeView>,
    mod_name: Seq<char>,
    operations: Seq<PathOperationView>,
) -> Result<ModulePlanView, CompileErrorView> {
    match plain_ident(mod_name) {
        Err(e) => Err(e),
        Ok(_) => match operation_plans(components, models, operations, Seq::empty()) {
            Err(e) => Err(e),
            Ok(plans) => Ok(
                ModulePlanView {
                    mod_name,
                    handler_name: pascal_case(mod_name) + "ApiHandler"@,
                    operations: plans,
                },
            ),
        },
    }
}

/// The operation ids of a list of operations, in order.
pub open spec fn operation_keys(operations: Seq<PathOperationView>) -> Seq<Option<Seq<char>>> {
    Seq::new(operations.len(), |i: int| operations[i].op.operation_id)
}

/// The operations in the order that `order` gives.
pub open spec fn arranged(operations: Seq<PathOperationView>, order: Seq<usize>) -> Seq<
    PathOperationView,
> {
    Seq::new(order.len(), |i: int| operations[order[i] as int])
}

/// The operation ids of a list of operations, in order.
fn operation_ids(operations: &Vec<PathOperation>) -> (keys: Vec<Option<String>>)
    ensures
        keys.deep_view() == operation_keys(operations.deep_view()),
{
    let mut keys: Vec<Option<String>> = Vec::new();
    let mut k: usize = 0;
    while k < operations.len()
        invariant
            k <= operations.len(),
            keys.deep_view() == operation_keys(operations.deep_view()).take(k as int),
        decreases operations.len() - k,
    {
        let key = copy_text(&operations[k].op.operation_id);
        assert(key.deep_view() == operation_keys(operations.deep_view())[k as int]);
        push_item(&mut keys, key);
        assert(keys.deep_view() =~= operation_keys(operations.deep_view()).take(k as int + 1));
        k += 1;
    }
    assert(keys.deep_view() =~= operation_keys(operations.deep_view()));
    keys
}

/// Plans the operations in the order that `order` gives.
#[verifier::loop_isolation(false)]
fn plan_operations(
    operations: &Vec<PathOperation>,
    order: &Vec<usize>,
    components: &Components,
    models: &mut Vec<CompiledType>,
) -> (res: Result<Vec<ApiOperation>, CompileError>)
    requires
        forall|a: int| 0 <= a < order.len() ==> (#[trigger] order[a]) < operations.len(),
    ensures
        agrees(
            res,
            operation_plans(
                components.deep_view(),
                old(models).deep_view(),
                arranged(operations.deep_view(), order@),
                Seq::empty(),
            ),
        ),
        res is Ok ==> final(models).deep_view() == old(models).deep_view(),
{
    let ghost sorted = arranged(operations.deep_view(), order@);
    let ghost models0 = models.deep_view();
    let mut plans: Vec<ApiOperation> = Vec::new();
    let mut i: usize = 0;
    proof {
        assert(plans.deep_view() =~= Seq::empty());
        assert(sorted.skip(0) =~= sorted);
    }
    while i < order.len()
        invariant
            i <= order.len(),
            models.deep_view() == models0,
            operation_plans(components.deep_view(), models0, sorted, Seq::empty())
                == operation_plans(
                components.deep_view(),
                models0,
                sorted.skip(i as int),
                plans.deep_view(),
            ),
        decreases order.len() - i,
    {
        proof {
            let rest = sorted.skip(i as int);
            assert(rest[0] == operations.deep_view()[order[i as int] as int]);
            assert(rest.drop_first() =~= sorted.skip(i as int + 1));
        }
        let at = order[i];
        let plan = match gen_api_operation(
            components,
            models,
            operations[at].method,
            operations[at].request_path.as_str(),
            operations[at].op,
        ) {
            Err(e) => {
                return Err(e);
            },
            Ok(plan) => plan,
        };
        push_item(&mut plans, plan);
        i += 1;
    }
    Ok(plans)
}

/// Plans the module `mod_name` for the given operations. The operations are
/// planned and written by operation id, so that the same document always
/// gives the same module; an operation without an operation id comes first
/// and is the error. The order is the sorted order of the operation ids
/// (`lemma_sorted_positions`): every operation is planned once.
pub fn gen_api_module(
    mod_name: &str,
    operations: &Vec<PathOperation>,
    components: &Components,
    models: &mut Vec<CompiledType>,
) -> (res: Result<ModulePlan, CompileError>)
    ensures
        agrees(
            res,
            module_plan(
                components.deep_view(),
                old(models).deep_view(),
                mod_name@,
                arranged(
                    operations.deep_view(),
                    sorted_positions(operation_keys(operations.deep_view())),
                ),
            ),
        ),
        res is Ok ==> final(models).deep_view() == old(models).deep_view(),
        is_sorted_order(
            operation_keys(operations.deep_view()),
            sorted_positions(operation_keys(operations.deep_view())),
        ),
{
    let keys = operation_ids(operations);
    let order = sorted_order(&keys);
    let plain = match parse_ident(mod_name) {
        Some(ident) => str_eq(ident.as_str(), mod_name),
        None => false,
    };
    if !plain {
        return Err(error(CompileErrorKind::InvalidIdentifier, mod_name));
    }
    let plans = match plan_operations(operations, &order, components, models) {
        Err(e) => {
            return Err(e);
        },
        Ok(plans) => plans,
    };
    let pascal = to_pascal_case(mod_name);
    Ok(
        ModulePlan {
            mod_name: String::from_str(mod_name),
            handler_name: concat2(pascal.as_str(), "ApiHandler"),
            operations: plans,
        },
    )
}

/// The position of the wrapper that handles `operation_id`: the first plan of
/// that operation id; `None` where no plan has it, which is the default arm of
/// the dispatcher.
pub open spec fn dispatch_target(plans: Seq<ApiOperationView>, operation_id: Seq<char>) -> Option<
    int,
> {
    if exists|i: int| 0 <= i < plans.len() && (#[trigger] plans[i]).operation_id == operation_id {
        Some(
            choose|i: int|
                0 <= i < plans.len() && (#[trigger] plans[i]).operation_id == operation_id
                    && forall|j: int|
                    0 <= j < i ==> (#[trigger] plans[j]).operation_id != operation_id,
        )
    } else {
        None
    }
}

/// Whether no two plans have the same operation id.
pub open spec fn distinct_operation_ids(plans: Seq<ApiOperationView>) -> bool {
    forall|i: int, j: int|
        0 <= i < j < plans.len() ==> (#[trigger] plans[i]).operation_id != (
        #[trigger] plans[j]).operation_id
}

/// The operation ids of the wrappers of a module, in the order of its plans:
/// what the dispatcher of the module knows.
pub fn wrapper_ids(plans: &Vec<ApiOperation>) -> (ids: Vec<String>)
    ensures
        ids.len() == plans.len(),
        forall|i: int|
            0 <= i < plans.len() ==> (#[trigger] ids[i])@ == plans.deep_view()[i].operation_id,
{
    let mut ids: Vec<String> = Vec::new();
    let mut i: usize = 0;
    while i < plans.len()
        invariant
            i <= plans.len(),
            ids.len() == i,
            forall|k: int| 0 <= k < i ==> (#[trigger] ids[k])@ == plans.deep_view()[k].operation_id,
        decreases plans.len() - i,
    {
        assert(plans.deep_view()[i as int].operation_id == plans[i as int].operation_id@);
        ids.push(plans[i].operation_id.clone());
        i += 1;
    }
    ids
}

/// Finds the wrapper that handles a request for `operation_id`: what
/// `dispatch_id` finds among the operation ids of the plans.
pub fn dispatch(plans: &Vec<ApiOperation>, operation_id: &str) -> (r: Option<usize>)
    ensures
        match r {
            Some(i) => i < plans.len() && plans.deep_view()[i as int].operation_id
                == operation_id@ && forall|j: int|
                0 <= j < i ==> (#[trigger] plans.deep_view()[j]).operation_id != operation_id@,
            None => forall|j: int|
                0 <= j < plans.len() ==> (#[trigger] plans.deep_view()[j]).operation_id
                    != operation_id@,
        },
        r.is_some() == dispatch_target(plans.deep_view(), operation_id@).is_some(),
        r.is_some() ==> r.unwrap() == dispatch_target(plans.deep_view(), operation_id@).unwrap(),
{
    let ids = wrapper_ids(plans);
    let r = dispatch_id(&ids, operation_id);
    proof {
        let views = plans.deep_view();
        match r {
            Some(i) => {
                assert(views[i as int].operation_id == operation_id@);
                assert forall|j: int| 0 <= j < i implies (#[trigger] views[j]).operation_id
                    != operation_id@ by {
                    assert(ids[j]@ != operation_id@);
                }
                let found = dispatch_target(views, operation_id@).unwrap();
                if found < i {
                    assert(ids[found]@ != operation_id@);
                }
                if i < found {
                    assert(views[i as int].operation_id != operation_id@);
                }
            },
            None => {
                assert forall|j: int| 0 <= j < plans.len() implies (#[trigger] views[j]).operation_id
                    != operation_id@ by {
                    assert(ids[j]@ != operation_id@);
                }
            },
        }
    }
    r
}

/// The dispatcher routes every known operation id to exactly one wrapper, its
/// own, and every other operation id to the default arm.
pub proof fn law_dispatch_is_total_and_exact(plans: Seq<ApiOperationView>, operation_id: Seq<char>)
    requires
        distinct_operation_ids(plans),
    ensures
        forall|i: int|
            0 <= i < plans.len() && (#[trigger] plans[i]).operation_id == operation_id
                ==> dispatch_target(plans, operation_id) == Some(i),
        (forall|i: int| 0 <= i < plans.len() ==> (#[trigger] plans[i]).operation_id != operation_id)
            ==> dispatch_target(plans, operation_id) is None,
{
    assert forall|i: int|
        0 <= i < plans.len() && (#[trigger] plans[i]).operation_id
            == operation_id implies dispatch_target(plans, operation_id) == Some(i) by {
        let found = dispatch_target(plans, operation_id).unwrap();
        if found < i {
            assert(plans[found].operation_id != plans[i].operation_id);
        }
        if i < found {
            assert(plans[i].operation_id != plans[found].operation_id);
        }
    }
}

/// The first operation id that two of the plans share, if any two do.
pub open spec fn first_duplicate(plans: Seq<ApiOperationView>, upto: int) -> Option<Seq<char>>
    decreases upto,
{
    if upto <= 0 || upto > plans.len() {
        None
    } else {
        match first_duplicate(plans, upto - 1) {
            Some(id) => Some(id),
            None => if exists|j: int|
                0 <= j < upto - 1 && (#[trigger] plans[j]).operation_id == plans[upto
                    - 1].operation_id {
                Some(plans[upto - 1].operation_id)
            } else {
                None
            },
        }
    }
}

/// Without a shared operation id among the first plans, those are distinct.
pub proof fn lemma_no_duplicate_is_distinct(plans: Seq<ApiOperationView>, upto: int)
    requires
        0 <= upto <= plans.len(),
        first_duplicate(plans, upto) is None,
    ensures
        distinct_operation_ids(plans.take(upto)),
    decreases upto,
{
    if upto > 0 {
        lemma_no_duplicate_is_distinct(plans, upto - 1);
        let shorter = plans.take(upto - 1);
        let longer = plans.take(upto);
        assert forall|i: int, j: int| 0 <= i < j < longer.len() implies (
        #[trigger] longer[i]).operation_id != (#[trigger] longer[j]).operation_id by {
            if j < upto - 1 {
                assert(shorter[i] == longer[i]);
                assert(shorter[j] == longer[j]);
            } else {
                assert(longer[i] == plans[i]);
            }
        }
    }
}

/// Checks that operation ids are unique: the error names the first operation
/// id, in the order of the plans, that an earlier plan has as well.
#[verifier::loop_isolation(false)]
pub fn check_operation_ids(plans: &Vec<ApiOperation>) -> (res: Result<(), CompileError>)
    ensures
        match first_duplicate(plans.deep_view(), plans.len() as int) {
            Some(id) => res is Err && res->Err_0.deep_view() == (CompileErrorView {
                kind: CompileErrorKind::DuplicateOperationId,
                subject: id,
            }),
            None => res is Ok && distinct_operation_ids(plans.deep_view()),
        },
{
    let mut i: usize = 0;
    while i < plans.len()
        invariant
            i <= plans.len(),
            first_duplicate(plans.deep_view(), i as int) is None,
        decreases plans.len() - i,
    {
        let mut j: usize = 0;
        while j < i
            invariant
                j <= i,
                i < plans.len(),
                forall|k: int|
                    0 <= k < j ==> (#[trigger] plans.deep_view()[k]).operation_id
                        != plans.deep_view()[i as int].operation_id,
            decreases i - j,
        {
            if str_eq(plans[j].operation_id.as_str(), plans[i].operation_id.as_str()) {
                proof {
                    assert(plans.deep_view()[j as int].operation_id == plans.deep_view()[i as int].operation_id);
                    lemma_duplicate_stays(plans.deep_view(), i as int + 1, plans.len() as int);
                }
                return Err(
                    error(CompileErrorKind::DuplicateOperationId, plans[i].operation_id.as_str()),
                );
            }
            j += 1;
        }
        i += 1;
    }
    proof {
        lemma_no_duplicate_is_distinct(plans.deep_view(), plans.len() as int);
        assert(plans.deep_view().take(plans.len() as int) =~= plans.deep_view());
    }
    Ok(())
}

/// A shared operation id that was found among the first plans is the one that
/// is found among all.
pub proof fn lemma_duplicate_stays(plans: Seq<ApiOperationView>, upto: int, all: int)
    requires
        0 <= upto <= all <= plans.len(),
        first_duplicate(plans, upto) is Some,
    ensures
        first_duplicate(plans, all) == first_duplicate(plans, upto),
    decreases all - upto,
{
    if upto < all {
        lemma_duplicate_stays(plans, upto, all - 1);
    }
}

/// Finds an operation id among the operation ids of the wrappers of a module,
/// as the dispatcher does for every request: the position of the first
/// wrapper of that operation id; `None`, the default arm, where there is
/// none.
pub fn dispatch_id(operation_ids: &Vec<String>, operation_id: &str) -> (r: Option<usize>)
    ensures
        match r {
            Some(i) => i < operation_ids.len() && operation_ids[i as int]@ == operation_id@
                && forall|j: int| 0 <= j < i ==> (#[trigger] operation_ids[j])@ != operation_id@,
            None => forall|j: int|
                0 <= j < operation_ids.len() ==> (#[trigger] operation_ids[j])@ != operation_id@,
        },
{
    let mut i: usize = 0;
    while i < operation_ids.len()
        invariant
            i <= operation_ids.len(),
            forall|j: int| 0 <= j < i ==> (#[trigger] operation_ids[j])@ != operation_id@,
        decreases operation_ids.len() - i,
    {
        if str_eq(operation_ids[i].as_str(), operation_id) {
            return Some(i);
        }
        i += 1;
    }
    None
}

/// Any two plans with the same operation id make the check of a module fail.
pub proof fn law_shared_operation_id_in_a_module_is_an_error(
    plans: Seq<ApiOperationView>,
    i: int,
    j: int,
)
    requires
        0 <= i < j < plans.len(),
        plans[i].operation_id == plans[j].operation_id,
    ensures
        first_duplicate(plans, plans.len() as int) is Some,
{
    assert(first_duplicate(plans, j + 1) is Some);
    lemma_duplicate_stays(plans, j + 1, plans.len() as int);
}

/// The first operation id, in the order of the operations, that an earlier
/// operation has as well; `keys` holds the operation id of each operation, and
/// an operation without one shares it with none.
pub open spec fn first_shared_id(keys: Seq<Option<Seq<char>>>, upto: int) -> Option<Seq<char>>
    decreases upto,
{
    if upto <= 0 || upto > keys.len() {
        None
    } else {
        match first_shared_id(keys, upto - 1) {
            Some(id) => Some(id),
            None => if keys[upto - 1] is Some && exists|j: int|
                0 <= j < upto - 1 && #[trigger] keys[j] == keys[upto - 1] {
                keys[upto - 1]
            } else {
                None
            },
        }
    }
}

/// An operation id that was found to be shared among the first operations is
/// the one that is found among all.
pub proof fn lemma_shared_id_stays(keys: Seq<Option<Seq<char>>>, upto: int, all: int)
    requires
        0 <= upto <= all <= keys.len(),
        first_shared_id(keys, upto) is Some,
    ensures
        first_shared_id(keys, all) == first_shared_id(keys, upto),
    decreases all - upto,
{
    if upto < all {
        lemma_shared_id_stays(keys, upto, all - 1);
    }
}

/// Any two operations of a document with the same operation id make the check
/// of the document fail, wherever they stand.
pub proof fn law_shared_operation_id_is_an_error(keys: Seq<Option<Seq<char>>>, i: int, j: int)
    requires
        0 <= i < j < keys.len(),
        keys[i] is Some,
        keys[i] == keys[j],
    ensures
        first_shared_id(keys, keys.len() as int) is Some,
{
    assert(first_shared_id(keys, j + 1) is Some);
    lemma_shared_id_stays(keys, j + 1, keys.len() as int);
}

/// Without a shared operation id, no two operations have the same one.
pub proof fn lemma_no_shared_id(keys: Seq<Option<Seq<char>>>, upto: int)
    requires
        0 <= upto <= keys.len(),
        first_shared_id(keys, upto) is None,
    ensures
        forall|i: int, j: int|
            0 <= i < j < upto && (#[trigger] keys[i]) is Some ==> keys[i] != #[trigger] keys[j],
    decreases upto,
{
    if upto > 0 {
        lemma_no_shared_id(keys, upto - 1);
    }
}

/// Checks that no two operations of a document have the same operation id,
/// whichever deployable unit serves them: the error names the first operation
/// id, in the order of the operations, that an earlier operation has as well.
#[verifier::loop_isolation(false)]
pub fn check_unique_operation_ids(operations: &Vec<PathOperation>) -> (res: Result<(), CompileError>)
    ensures
        match first_shared_id(operation_keys(operations.deep_view()), operations.len() as int) {
            Some(id) => res is Err && res->Err_0.deep_view() == (CompileErrorView {
                kind: CompileErrorKind::DuplicateOperationId,
                subject: id,
            }),
            None => res is Ok,
        },
        res is Ok ==> forall|i: int, j: int|
            0 <= i < j < operations.len() && (#[trigger] operations[i]).op.operation_id is Some
                ==> operations[i].op.operation_id.deep_view()
                != (#[trigger] operations[j]).op.operation_id.deep_view(),
{
    let ghost keys = operation_keys(operations.deep_view());
    let mut i: usize = 0;
    while i < operations.len()
        invariant
            i <= operations.len(),
            first_shared_id(keys, i as int) is None,
        decreases operations.len() - i,
    {
        assert(keys[i as int] == operations[i as int].op.operation_id.deep_view());
        match &operations[i].op.operation_id {
            None => {},
            Some(id) => {
                let mut j: usize = 0;
                while j < i
                    invariant
                        j <= i,
                        i < operations.len(),
                        keys[i as int] == Some(id@),
                        forall|k: int| 0 <= k < j ==> #[trigger] keys[k] != keys[i as int],
                    decreases i - j,
                {
                    assert(keys[j as int] == operations[j as int].op.operation_id.deep_view());
                    let same = match &operations[j].op.operation_id {
                        Some(other) => str_eq(other.as_str(), id.as_str()),
                        None => false,
                    };
                    if same {
                        proof {
                            assert(keys[j as int] == keys[i as int]);
                            assert(first_shared_id(keys, i as int + 1) == Some(id@));
                            lemma_shared_id_stays(keys, i as int + 1, operations.len() as int);
                        }
                        return Err(error(CompileErrorKind::DuplicateOperationId, id.as_str()));
                    }
                    j += 1;
                }
            },
        }
        i += 1;
    }
    proof {
        lemma_no_shared_id(keys, operations.len() as int);
        assert forall|i: int, j: int|
            0 <= i < j < operations.len() && (#[trigger] operations[i]).op.operation_id
                is Some implies operations[i].op.operation_id.deep_view()
            != (#[trigger] operations[j]).op.operation_id.deep_view() by {
            assert(keys[i] == operations[i].op.operation_id.deep_view());
            assert(keys[j] == operations[j].op.operation_id.deep_view());
        }
    }
    Ok(())
}

} // verus!
