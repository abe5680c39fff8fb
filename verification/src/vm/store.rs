//! The store: the cells that shared values point to.

use vstd::prelude::*;
use crate::table::{Table, bind, lookup};
use crate::vm::number::{Order, float_order, order_floats};
use crate::vm::value::{Value, ValueView, views, clone_values};

verus! {

/// The model of a table of values.
pub type Fields = Seq<(Seq<char>, ValueView)>;

/// What a shared value points to.
pub enum Cell {
    Array(Vec<Value>),
    Dictionary(Table<Value>),
    Class(Table<Value>),
    Object(Table<Value>),
}

/// The model of a [`Cell`].
pub enum CellView {
    Array(Seq<ValueView>),
    Dictionary(Fields),
    Class(Fields),
    Object(Fields),
}

impl View for Cell {
    type V = CellView;

    open spec fn view(&self) -> CellView {
        match self {
            Cell::Array(items) => CellView::Array(views(items@)),
            Cell::Dictionary(table) => CellView::Dictionary(table@),
            Cell::Class(table) => CellView::Class(table@),
            Cell::Object(table) => CellView::Object(table@),
        }
    }
}

/// The cells of a machine, each at its address. Cells are never removed, so
/// an address stays good once it was handed out.
pub struct Store {
    cells: Vec<Cell>,
}

impl View for Store {
    type V = Seq<CellView>;

    closed spec fn view(&self) -> Seq<CellView> {
        Seq::new(self.cells.len() as nat, |i: int| self.cells[i]@)
    }
}

impl Store {
    /// The store without cells.
    pub fn new() -> (out: Self)
        ensures
            out@ == Seq::<CellView>::empty(),
    {
        let out = Store { cells: Vec::new() };
        assert(out@ =~= Seq::<CellView>::empty());
        out
    }

    /// The number of cells.
    pub fn len(&self) -> (n: usize)
        ensures
            n == self@.len(),
    {
        self.cells.len()
    }

    /// Puts a cell into the store and returns its address.
    pub fn allocate(&mut self, cell: Cell) -> (address: usize)
        ensures
            address == old(self)@.len(),
            final(self)@ == old(self)@.push(cell@),
    {
        let address = self.cells.len();
        self.cells.push(cell);
        assert(self@ =~= old(self)@.push(cell@));
        address
    }

    /// The cell at `address`.
    pub fn get(&self, address: usize) -> (cell: Option<&Cell>)
        ensures
            match cell {
                Some(c) => address < self@.len() && c@ == self@[address as int],
                None => address >= self@.len(),
            },
    {
        if address < self.cells.len() {
            Some(&self.cells[address])
        } else {
            None
        }
    }

    /// Appends a value to the array at `address`.
    pub fn array_push(&mut self, address: usize, value: Value)
        requires
            is_array(old(self)@, address),
        ensures
            final(self)@ == old(self)@.update(
                address as int,
                CellView::Array(items_at(old(self)@, address).push(value@)),
            ),
    {
        match &mut self.cells[address] {
            Cell::Array(items) => {
                items.push(value);
            },
            _ => {},
        }
        assert(views(old(self).cells@[address as int]->Array_0@.push(value)) =~= views(
            old(self).cells@[address as int]->Array_0@,
        ).push(value@));
        assert(self@ =~= old(self)@.update(
            address as int,
            CellView::Array(items_at(old(self)@, address).push(value@)),
        ));
    }

    /// Replaces the item at `index` of the array at `address`.
    pub fn array_set(&mut self, address: usize, index: usize, value: Value)
        requires
            is_array(old(self)@, address),
            index < items_at(old(self)@, address).len(),
        ensures
            final(self)@ == old(self)@.update(
                address as int,
                CellView::Array(items_at(old(self)@, address).update(index as int, value@)),
            ),
    {
        match &mut self.cells[address] {
            Cell::Array(items) => {
                items.set(index, value);
            },
            _ => {},
        }
        assert(views(old(self).cells@[address as int]->Array_0@.update(index as int, value))
            =~= views(old(self).cells@[address as int]->Array_0@).update(index as int, value@));
        assert(self@ =~= old(self)@.update(
            address as int,
            CellView::Array(items_at(old(self)@, address).update(index as int, value@)),
        ));
    }

    /// Appends the items of the array at `source` to the array at `target`.
    pub fn array_extend(&mut self, target: usize, source: usize)
        requires
            is_array(old(self)@, target),
            is_array(old(self)@, source),
        ensures
            final(self)@ == old(self)@.update(
                target as int,
                CellView::Array(items_at(old(self)@, target) + items_at(old(self)@, source)),
            ),
    {
        let mut added: Vec<Value> = match &self.cells[source] {
            Cell::Array(items) => clone_values(items),
            _ => Vec::new(),
        };
        let ghost extra = added@;
        match &mut self.cells[target] {
            Cell::Array(items) => {
                items.append(&mut added);
            },
            _ => {},
        }
        assert(views(old(self).cells@[target as int]->Array_0@ + extra) =~= views(
            old(self).cells@[target as int]->Array_0@,
        ) + views(extra));
        assert(self@ =~= old(self)@.update(
            target as int,
            CellView::Array(items_at(old(self)@, target) + items_at(old(self)@, source)),
        ));
    }

    /// Binds `key` to `value` in the dictionary or object at `address`.
    pub fn table_insert(&mut self, address: usize, key: String, value: Value)
        requires
            is_dictionary(old(self)@, address) || is_object(old(self)@, address),
        ensures
            final(self)@ == old(self)@.update(
                address as int,
                with_binding(old(self)@[address as int], key@, value@),
            ),
    {
        match &mut self.cells[address] {
            Cell::Dictionary(table) => {
                table.insert(key, value);
            },
            Cell::Object(table) => {
                table.insert(key, value);
            },
            _ => {},
        }
        assert(self@ =~= old(self)@.update(
            address as int,
            with_binding(old(self)@[address as int], key@, value@),
        ));
    }

    /// Makes an object whose fields are a copy of the members of the class at
    /// `class`, and returns the object's address.
    pub fn instantiate(&mut self, class: usize) -> (address: usize)
        requires
            is_class(old(self)@, class),
        ensures
            address == old(self)@.len(),
            final(self)@ == old(self)@.push(CellView::Object(fields_at(old(self)@, class))),
    {
        let fields = match &self.cells[class] {
            Cell::Class(members) => members.duplicate(),
            _ => Table::new(),
        };
        self.allocate(Cell::Object(fields))
    }
}

/// Whether two values are equal in the language: numbers, booleans, text and
/// function names by what they hold, a float by its order (so a NaN equals
/// nothing and the two zeros are equal), shared values of one kind by their
/// contents, item by item, and values of different kinds never. `depth` is
/// how many shared values may be entered one inside the other; `None` says
/// that it was not enough.
pub open spec fn equal_values(store: Seq<CellView>, a: ValueView, b: ValueView, depth: nat) -> Option<
    bool,
>
    decreases depth, 0nat, 0nat,
{
    match (a, b) {
        (ValueView::Null, ValueView::Null) => Some(true),
        (ValueView::Integer(x), ValueView::Integer(y)) => Some(x == y),
        (ValueView::Float(x), ValueView::Float(y)) => Some(float_order(x, y) == Order::Equal),
        (ValueView::Bool(x), ValueView::Bool(y)) => Some(x == y),
        (ValueView::String(x), ValueView::String(y)) => Some(x == y),
        (ValueView::FunctionRef(x), ValueView::FunctionRef(y)) => Some(x == y),
        (ValueView::Array(x), ValueView::Array(y)) => if !is_array(store, x) || !is_array(
            store,
            y,
        ) {
            Some(false)
        } else if depth == 0 {
            None
        } else {
            equal_items(store, items_at(store, x), items_at(store, y), 0, (depth - 1) as nat)
        },
        (ValueView::Dictionary(x), ValueView::Dictionary(y)) => if !is_dictionary(store, x)
            || !is_dictionary(store, y) {
            Some(false)
        } else if depth == 0 {
            None
        } else {
            equal_fields(store, fields_at(store, x), fields_at(store, y), 0, (depth - 1) as nat)
        },
        (ValueView::Class(x), ValueView::Class(y)) => if !is_class(store, x) || !is_class(
            store,
            y,
        ) {
            Some(false)
        } else if depth == 0 {
            None
        } else {
            equal_fields(store, fields_at(store, x), fields_at(store, y), 0, (depth - 1) as nat)
        },
        (ValueView::Object(x), ValueView::Object(y)) => if !is_object(store, x) || !is_object(
            store,
            y,
        ) {
            Some(false)
        } else if depth == 0 {
            None
        } else {
            equal_fields(store, fields_at(store, x), fields_at(store, y), 0, (depth - 1) as nat)
        },
        _ => Some(false),
    }
}

/// Whether two sequences are equal from position `from` on: of the same
/// length, and equal item by item. The first pair that is not equal decides.
pub open spec fn equal_items(
    store: Seq<CellView>,
    xs: Seq<ValueView>,
    ys: Seq<ValueView>,
    from: nat,
    depth: nat,
) -> Option<bool>
    decreases depth, 1nat, xs.len() - from,
{
    if xs.len() != ys.len() {
        Some(false)
    } else if from >= xs.len() {
        Some(true)
    } else {
        match equal_values(store, xs[from as int], ys[from as int], depth) {
            Some(true) => equal_items(store, xs, ys, from + 1, depth),
            other => other,
        }
    }
}

/// Whether two tables are equal from position `from` of the first on: as
/// many bindings, and each key of the first bound in the second to an equal
/// value. The first binding that is not matched decides.
pub open spec fn equal_fields(
    store: Seq<CellView>,
    xs: Fields,
    ys: Fields,
    from: nat,
    depth: nat,
) -> Option<bool>
    decreases depth, 1nat, xs.len() - from,
{
    if xs.len() != ys.len() {
        Some(false)
    } else if from >= xs.len() {
        Some(true)
    } else {
        match lookup(ys, xs[from as int].0) {
            None => Some(false),
            Some(y) => match equal_values(store, xs[from as int].1, y, depth) {
                Some(true) => equal_fields(store, xs, ys, from + 1, depth),
                other => other,
            },
        }
    }
}

impl Store {
    /// Decides the equality of the language, entering at most `depth` shared
    /// values one inside the other.
    pub fn equal(&self, a: &Value, b: &Value, depth: usize) -> (out: Option<bool>)
        ensures
            out == equal_values(self@, a@, b@, depth as nat),
        decreases depth, 0nat,
    {
        match (a, b) {
            (Value::Null, Value::Null) => Some(true),
            (Value::Integer(x), Value::Integer(y)) => Some(*x == *y),
            (Value::Float(x), Value::Float(y)) => Some(
                matches!(order_floats(*x, *y), Order::Equal),
            ),
            (Value::Bool(x), Value::Bool(y)) => Some(*x == *y),
            (Value::String(x), Value::String(y)) => Some(*x == *y),
            (Value::FunctionRef(x), Value::FunctionRef(y)) => Some(*x == *y),
            (Value::Array(x), Value::Array(y)) => {
                match (self.get(*x), self.get(*y)) {
                    (Some(Cell::Array(xs)), Some(Cell::Array(ys))) => {
                        if depth == 0 {
                            None
                        } else {
                            self.equal_arrays(xs, ys, depth - 1)
                        }
                    },
                    _ => Some(false),
                }
            },
            (Value::Dictionary(x), Value::Dictionary(y)) => {
                match (self.get(*x), self.get(*y)) {
                    (Some(Cell::Dictionary(xs)), Some(Cell::Dictionary(ys))) => {
                        if depth == 0 {
                            None
                        } else {
                            self.equal_tables(xs, ys, depth - 1)
                        }
                    },
                    _ => Some(false),
                }
            },
            (Value::Class(x), Value::Class(y)) => {
                match (self.get(*x), self.get(*y)) {
                    (Some(Cell::Class(xs)), Some(Cell::Class(ys))) => {
                        if depth == 0 {
                            None
                        } else {
                            self.equal_tables(xs, ys, depth - 1)
                        }
                    },
                    _ => Some(false),
                }
            },
            (Value::Object(x), Value::Object(y)) => {
                match (self.get(*x), self.get(*y)) {
                    (Some(Cell::Object(xs)), Some(Cell::Object(ys))) => {
                        if depth == 0 {
                            None
                        } else {
                            self.equal_tables(xs, ys, depth - 1)
                        }
                    },
                    _ => Some(false),
                }
            },
            _ => Some(false),
        }
    }

    fn equal_arrays(&self, xs: &Vec<Value>, ys: &Vec<Value>, depth: usize) -> (out: Option<bool>)
        ensures
            out == equal_items(self@, views(xs@), views(ys@), 0, depth as nat),
        decreases depth, 1nat,
    {
        if xs.len() != ys.len() {
            return Some(false);
        }
        let mut i: usize = 0;
        while i < xs.len()
            invariant
                i <= xs.len(),
                xs.len() == ys.len(),
                equal_items(self@, views(xs@), views(ys@), 0, depth as nat) == equal_items(
                    self@,
                    views(xs@),
                    views(ys@),
                    i as nat,
                    depth as nat,
                ),
            decreases xs.len() - i,
        {
            match self.equal(&xs[i], &ys[i], depth) {
                Some(true) => {},
                other => {
                    return other;
                },
            }
            i += 1;
        }
        Some(true)
    }

    fn equal_tables(&self, xs: &Table<Value>, ys: &Table<Value>, depth: usize) -> (out: Option<
        bool,
    >)
        ensures
            out == equal_fields(self@, xs@, ys@, 0, depth as nat),
        decreases depth, 1nat,
    {
        if xs.len() != ys.len() {
            return Some(false);
        }
        let mut i: usize = 0;
        while i < xs.len()
            invariant
                i <= xs@.len(),
                xs@.len() == ys@.len(),
                equal_fields(self@, xs@, ys@, 0, depth as nat) == equal_fields(
                    self@,
                    xs@,
                    ys@,
                    i as nat,
                    depth as nat,
                ),
            decreases xs@.len() - i,
        {
            match ys.get(xs.key_at(i)) {
                None => {
                    return Some(false);
                },
                Some(y) => {
                    match self.equal(xs.value_at(i), y, depth) {
                        Some(true) => {},
                        other => {
                            return other;
                        },
                    }
                },
            }
            i += 1;
        }
        Some(true)
    }
}

/// Whether an array lives at `address`.
pub open spec fn is_array(store: Seq<CellView>, address: usize) -> bool {
    address < store.len() && store[address as int] is Array
}

/// Whether a dictionary lives at `address`.
pub open spec fn is_dictionary(store: Seq<CellView>, address: usize) -> bool {
    address < store.len() && store[address as int] is Dictionary
}

/// Whether a class lives at `address`.
pub open spec fn is_class(store: Seq<CellView>, address: usize) -> bool {
    address < store.len() && store[address as int] is Class
}

/// Whether an object lives at `address`.
pub open spec fn is_object(store: Seq<CellView>, address: usize) -> bool {
    address < store.len() && store[address as int] is Object
}

/// The items of the array at `address`.
pub open spec fn items_at(store: Seq<CellView>, address: usize) -> Seq<ValueView>
    recommends
        is_array(store, address),
{
    store[address as int]->Array_0
}

/// The bindings of the dictionary, class or object at `address`.
pub open spec fn fields_at(store: Seq<CellView>, address: usize) -> Fields
    recommends
        address < store.len(),
        !(store[address as int] is Array),
{
    match store[address as int] {
        CellView::Array(_) => Seq::empty(),
        CellView::Dictionary(fields) => fields,
        CellView::Class(fields) => fields,
        CellView::Object(fields) => fields,
    }
}

/// The cell with `key` bound to `value`; an array stays as it is.
pub open spec fn with_binding(cell: CellView, key: Seq<char>, value: ValueView) -> CellView {
    match cell {
        CellView::Array(items) => cell,
        CellView::Dictionary(fields) => CellView::Dictionary(bind(fields, key, value)),
        CellView::Class(fields) => CellView::Class(bind(fields, key, value)),
        CellView::Object(fields) => CellView::Object(bind(fields, key, value)),
    }
}

} // verus!
