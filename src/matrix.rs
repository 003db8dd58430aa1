//! The matrix page: entry widgets for two matrices and the arithmetic
//! between them.
//!
//! The entries of a matrix are opaque here (`M`): this page decides what may
//! be computed and keeps track of shapes; the caller parses matrices and does
//! the arithmetic.

use vstd::prelude::*;

verus! {

/// The arithmetic offered between the two matrices.
#[derive(Clone, Copy, Debug, PartialEq, Eq, Structural)]
pub enum IcedMatrixOperation {
    Add,
    Sub,
    Mul,
}

pub open spec fn operation_label(op: IcedMatrixOperation) -> Seq<char> {
    match op {
        IcedMatrixOperation::Add => "Addition"@,
        IcedMatrixOperation::Sub => "Subtraction"@,
        IcedMatrixOperation::Mul => "Multiplication"@,
    }
}

pub open spec fn operation_name(op: IcedMatrixOperation) -> Seq<char> {
    match op {
        IcedMatrixOperation::Add => "Add"@,
        IcedMatrixOperation::Sub => "Sub"@,
        IcedMatrixOperation::Mul => "Mul"@,
    }
}

impl IcedMatrixOperation {
    /// Every operation, in the order they are offered.
    pub fn all() -> (r: [IcedMatrixOperation; 3])
        ensures
            r@ == seq![IcedMatrixOperation::Add, IcedMatrixOperation::Sub, IcedMatrixOperation::Mul],
    {
        let r = [IcedMatrixOperation::Add, IcedMatrixOperation::Sub, IcedMatrixOperation::Mul];
        assert(r@ =~= seq![IcedMatrixOperation::Add, IcedMatrixOperation::Sub, IcedMatrixOperation::Mul]);
        r
    }

    /// The full name of the operation.
    pub fn label(&self) -> (r: String)
        ensures
            r@ == operation_label(*self),
    {
        match self {
            IcedMatrixOperation::Add => String::from_str("Addition"),
            IcedMatrixOperation::Sub => String::from_str("Subtraction"),
            IcedMatrixOperation::Mul => String::from_str("Multiplication"),
        }
    }

    /// The short name of the operation, as the selector shows it.
    pub fn name(&self) -> (r: String)
        ensures
            r@ == operation_name(*self),
    {
        match self {
            IcedMatrixOperation::Add => String::from_str("Add"),
            IcedMatrixOperation::Sub => String::from_str("Sub"),
            IcedMatrixOperation::Mul => String::from_str("Mul"),
        }
    }
}

impl Default for IcedMatrixOperation {
    fn default() -> (r: Self)
        ensures
            r == IcedMatrixOperation::Add,
    {
        IcedMatrixOperation::Add
    }
}

/// A matrix with its shape: `rows` by `cols`.
#[derive(Debug, Clone)]
pub struct SizedMatrix<M> {
    pub value: M,
    pub rows: usize,
    pub cols: usize,
}

/// What an entry widget shows: a button to start, the text of a new matrix,
/// the matrix, or the text of a matrix being replaced.
#[derive(Clone, Copy, Debug, PartialEq, Eq, Structural)]
pub enum IcedMatrixState {
    Uninitialized,
    Initializing,
    Display,
    Editing,
}

impl Default for IcedMatrixState {
    fn default() -> (r: Self)
        ensures
            r == IcedMatrixState::Display,
    {
        IcedMatrixState::Display
    }
}

/// The events of an entry widget. `Finish` carries the matrix that the
/// edited text denotes.
#[derive(Debug, Clone)]
pub enum IcedMatrixMessage<M> {
    Create,
    Finish(SizedMatrix<M>),
    Cancel,
    Edit,
    EditedValue(String),
    Delete,
}

/// An entry widget for one matrix.
#[derive(Debug, Clone)]
pub struct IcedMatrix<M> {
    pub mat: Option<SizedMatrix<M>>,
    pub edit_text: String,
    pub state: IcedMatrixState,
}

/// `new` is what `update` makes of `old` on `message`.
pub open spec fn matrix_updated<M>(
    old: IcedMatrix<M>,
    message: IcedMatrixMessage<M>,
    new: IcedMatrix<M>,
) -> bool {
    match message {
        IcedMatrixMessage::Create => new == IcedMatrix { state: IcedMatrixState::Initializing, ..old },
        IcedMatrixMessage::Finish(m) => new == IcedMatrix {
            mat: Some(m),
            state: IcedMatrixState::Display,
            ..old
        },
        IcedMatrixMessage::Cancel | IcedMatrixMessage::Delete => {
            &&& new.edit_text@.len() == 0
            &&& new.mat == old.mat
            &&& new.state == IcedMatrixState::Uninitialized
        },
        IcedMatrixMessage::Edit => new == IcedMatrix { state: IcedMatrixState::Editing, ..old },
        IcedMatrixMessage::EditedValue(text) => new == IcedMatrix { edit_text: text, ..old },
    }
}

impl<M> IcedMatrix<M> {
    pub fn new() -> (r: Self)
        ensures
            r.mat.is_none(),
            r.edit_text@.len() == 0,
            r.state == IcedMatrixState::Uninitialized,
    {
        IcedMatrix { mat: None, edit_text: String::new(), state: IcedMatrixState::Uninitialized }
    }

    /// A widget that shows `matrix`.
    pub fn from_matrix(matrix: SizedMatrix<M>) -> (r: Self)
        ensures
            r.mat == Some(matrix),
            r.edit_text@.len() == 0,
            r.state == IcedMatrixState::Display,
    {
        IcedMatrix { mat: Some(matrix), edit_text: String::new(), state: IcedMatrixState::Display }
    }

    pub fn update(&mut self, message: IcedMatrixMessage<M>)
        ensures
            matrix_updated(*old(self), message, *final(self)),
    {
        match message {
            IcedMatrixMessage::Create => {
                self.state = IcedMatrixState::Initializing;
            },
            IcedMatrixMessage::Finish(m) => {
                self.mat = Some(m);
                self.state = IcedMatrixState::Display;
            },
            IcedMatrixMessage::Cancel => {
                self.edit_text = String::new();
                self.state = IcedMatrixState::Uninitialized;
            },
            IcedMatrixMessage::EditedValue(content) => {
                self.edit_text = content;
            },
            IcedMatrixMessage::Edit => {
                self.state = IcedMatrixState::Editing;
            },
            IcedMatrixMessage::Delete => {
                self.edit_text = String::new();
                self.state = IcedMatrixState::Uninitialized;
            },
        }
    }

    pub fn is_initialized(&self) -> (r: bool)
        ensures
            r == self.mat.is_some(),
    {
        self.mat.is_some()
    }

    pub fn get_matrix_unchecked(&self) -> (r: &M)
        requires
            self.mat.is_some(),
        ensures
            *r == self.mat.unwrap().value,
    {
        &self.mat.as_ref().unwrap().value
    }

    /// The shape of the matrix, rows first.
    pub fn get_size_unchecked(&self) -> (r: (usize, usize))
        requires
            self.mat.is_some(),
        ensures
            r == (self.mat.unwrap().rows, self.mat.unwrap().cols),
    {
        let m = self.mat.as_ref().unwrap();
        (m.rows, m.cols)
    }
}

} // verus!

verus! {

impl<M: Clone> IcedMatrix<M> {
    /// A copy of the widget, with the matrix's entries cloned.
    pub fn duplicate(&self) -> (r: Self)
        ensures
            copied_matrix(*self, r),
    {
        let mat = match &self.mat {
            Some(m) => Some(SizedMatrix { value: m.value.clone(), rows: m.rows, cols: m.cols }),
            None => None,
        };
        IcedMatrix { mat, edit_text: self.edit_text.clone(), state: self.state }
    }
}

/// `copy` is `source` with the matrix's entries cloned.
pub open spec fn copied_matrix<M: Clone>(source: IcedMatrix<M>, copy: IcedMatrix<M>) -> bool {
    &&& copy.edit_text == source.edit_text
    &&& copy.state == source.state
    &&& copy.mat.is_some() == source.mat.is_some()
    &&& source.mat.is_some() ==> {
        let (a, b) = (source.mat.unwrap(), copy.mat.unwrap());
        a.rows == b.rows && a.cols == b.cols && cloned(a.value, b.value)
    }
}

/// Why no result was computed or reused.
#[derive(Clone, Copy, Debug, PartialEq, Eq, Structural)]
pub enum MatrixError {
    NotInitialized,
    NoOperation,
    SizesNotEqual,
    ColumnsNotRows,
    RowsNotColumns,
    NoResult,
}

pub open spec fn matrix_error_text(e: MatrixError) -> Seq<char> {
    match e {
        MatrixError::NotInitialized => "Matrices not initialized"@,
        MatrixError::NoOperation => "please select an operation"@,
        MatrixError::SizesNotEqual => "Matrix sizes not equal"@,
        MatrixError::ColumnsNotRows => "column size of mat1 != row size of mat2"@,
        MatrixError::RowsNotColumns => "row size of mat1 != column size of mat2"@,
        MatrixError::NoResult => "Please calculate a result first"@,
    }
}

impl MatrixError {
    /// The message shown to the user.
    pub fn message(&self) -> (r: String)
        ensures
            r@ == matrix_error_text(*self),
    {
        match self {
            MatrixError::NotInitialized => String::from_str("Matrices not initialized"),
            MatrixError::NoOperation => String::from_str("please select an operation"),
            MatrixError::SizesNotEqual => String::from_str("Matrix sizes not equal"),
            MatrixError::ColumnsNotRows => String::from_str("column size of mat1 != row size of mat2"),
            MatrixError::RowsNotColumns => String::from_str("row size of mat1 != column size of mat2"),
            MatrixError::NoResult => String::from_str("Please calculate a result first"),
        }
    }
}

/// The events of the matrix page: an event of one entry widget (by index),
/// an operation chosen, a calculation asked for, or the result to be reused
/// as the first matrix.
#[derive(Debug, Clone)]
pub enum MatrixMessage<M> {
    IcedMatrixMessage(usize, IcedMatrixMessage<M>),
    MatrixOpSelected(IcedMatrixOperation),
    MatrixCalculate,
    ReuseResult,
}

/// The matrix page: two entry widgets, the chosen operation, the last result
/// and the last error.
#[derive(Debug, Clone)]
pub struct MatrixCalculationState<M> {
    pub matrices: Vec<IcedMatrix<M>>,
    pub selected_mat_op: Option<IcedMatrixOperation>,
    pub result: Option<IcedMatrix<M>>,
    pub error: Option<MatrixError>,
}

/// The operation to run and the shape of its result, or why none can run:
/// both matrices must be entered and an operation chosen; addition and
/// subtraction need equal shapes, multiplication needs the columns of the
/// first to match the rows of the second, and its rows the columns of the
/// second (the product is then square).
pub open spec fn planned<M>(s: MatrixCalculationState<M>) -> Result<
    (IcedMatrixOperation, usize, usize),
    MatrixError,
> {
    let a = s.matrices@[0].mat;
    let b = s.matrices@[1].mat;
    if a.is_none() || b.is_none() {
        Err(MatrixError::NotInitialized)
    } else {
        let (a, b) = (a.unwrap(), b.unwrap());
        match s.selected_mat_op {
            None => Err(MatrixError::NoOperation),
            Some(IcedMatrixOperation::Mul) => if a.cols != b.rows {
                Err(MatrixError::ColumnsNotRows)
            } else if a.rows != b.cols {
                Err(MatrixError::RowsNotColumns)
            } else {
                Ok((IcedMatrixOperation::Mul, a.rows, b.cols))
            },
            Some(op) => if a.rows == b.rows && a.cols == b.cols {
                Ok((op, a.rows, a.cols))
            } else {
                Err(MatrixError::SizesNotEqual)
            },
        }
    }
}

/// `new` is what `update` makes of `old` on `message`, where `compute` does
/// the arithmetic. An entry widget's message goes to that widget (and is
/// dropped for an index past the second); a calculation stores the result
/// of the planned operation, or sets the error and keeps the previous result;
/// reusing puts a copy of the result in place of the first matrix.
pub open spec fn calculation_updated<M: Clone, F: Fn(IcedMatrixOperation, &M, &M) -> M>(
    old: MatrixCalculationState<M>,
    message: MatrixMessage<M>,
    compute: F,
    new: MatrixCalculationState<M>,
) -> bool {
    match message {
        MatrixMessage::IcedMatrixMessage(id, m) => if id < 2 {
            &&& new.matrices@.len() == 2
            &&& matrix_updated(old.matrices@[id as int], m, new.matrices@[id as int])
            &&& new.matrices@[1 - id] == old.matrices@[1 - id]
            &&& new.selected_mat_op == old.selected_mat_op
            &&& new.result == old.result
            &&& new.error == old.error
        } else {
            new == old
        },
        MatrixMessage::MatrixOpSelected(op) => new == MatrixCalculationState {
            selected_mat_op: Some(op),
            ..old
        },
        MatrixMessage::MatrixCalculate => {
            &&& new.matrices == old.matrices
            &&& new.selected_mat_op == old.selected_mat_op
            &&& match planned(old) {
                Ok((op, rows, cols)) => {
                    let a = old.matrices@[0].mat.unwrap().value;
                    let b = old.matrices@[1].mat.unwrap().value;
                    &&& new.error.is_none()
                    &&& new.result.is_some()
                    &&& new.result.unwrap().edit_text@.len() == 0
                    &&& new.result.unwrap().state == IcedMatrixState::Display
                    &&& new.result.unwrap().mat.is_some()
                    &&& new.result.unwrap().mat.unwrap().rows == rows
                    &&& new.result.unwrap().mat.unwrap().cols == cols
                    &&& compute.ensures((op, &a, &b), new.result.unwrap().mat.unwrap().value)
                },
                Err(e) => new.error == Some(e) && new.result == old.result,
            }
        },
        MatrixMessage::ReuseResult => match old.result {
            Some(r) => {
                &&& new.matrices@.len() == 2
                &&& copied_matrix(r, new.matrices@[0])
                &&& new.matrices@[1] == old.matrices@[1]
                &&& new.selected_mat_op == old.selected_mat_op
                &&& new.result == old.result
                &&& new.error == old.error
            },
            None => new == MatrixCalculationState { error: Some(MatrixError::NoResult), ..old },
        },
    }
}

impl<M: Clone> MatrixCalculationState<M> {
    /// The page holds exactly two entry widgets.
    pub open spec fn wf(&self) -> bool {
        self.matrices@.len() == 2
    }

    pub fn new() -> (r: Self)
        ensures
            r.wf(),
            r.matrices@[0].mat.is_none(),
            r.matrices@[1].mat.is_none(),
            r.matrices@[0].state == IcedMatrixState::Uninitialized,
            r.matrices@[1].state == IcedMatrixState::Uninitialized,
            r.matrices@[0].edit_text@.len() == 0,
            r.matrices@[1].edit_text@.len() == 0,
            r.selected_mat_op.is_none(),
            r.result.is_none(),
            r.error.is_none(),
    {
        let mut matrices: Vec<IcedMatrix<M>> = Vec::new();
        matrices.push(IcedMatrix::new());
        matrices.push(IcedMatrix::new());
        MatrixCalculationState { matrices, selected_mat_op: None, result: None, error: None }
    }

    /// The operation that a calculation would run now, with the shape of its
    /// result, or why it would not run.
    pub fn plan(&self) -> (r: Result<(IcedMatrixOperation, usize, usize), MatrixError>)
        requires
            self.wf(),
        ensures
            r == planned(*self),
    {
        let a = &self.matrices[0].mat;
        let b = &self.matrices[1].mat;
        match (a, b) {
            (Some(a), Some(b)) => match self.selected_mat_op {
                None => Err(MatrixError::NoOperation),
                Some(IcedMatrixOperation::Mul) => {
                    if a.cols != b.rows {
                        Err(MatrixError::ColumnsNotRows)
                    } else if a.rows != b.cols {
                        Err(MatrixError::RowsNotColumns)
                    } else {
                        Ok((IcedMatrixOperation::Mul, a.rows, b.cols))
                    }
                },
                Some(op) => {
                    if a.rows == b.rows && a.cols == b.cols {
                        Ok((op, a.rows, a.cols))
                    } else {
                        Err(MatrixError::SizesNotEqual)
                    }
                },
            },
            _ => Err(MatrixError::NotInitialized),
        }
    }

    pub fn update<F: Fn(IcedMatrixOperation, &M, &M) -> M>(
        &mut self,
        message: MatrixMessage<M>,
        compute: F,
    )
        requires
            old(self).wf(),
            forall|op: IcedMatrixOperation, a: &M, b: &M| #[trigger] compute.requires((op, a, b)),
        ensures
            final(self).wf(),
            calculation_updated(*old(self), message, compute, *final(self)),
    {
        match message {
            MatrixMessage::IcedMatrixMessage(id, matrix_message) => {
                if id < self.matrices.len() {
                    self.matrices[id].update(matrix_message);
                }
            },
            MatrixMessage::MatrixOpSelected(op) => {
                self.selected_mat_op = Some(op);
            },
            MatrixMessage::MatrixCalculate => {
                self.error = None;
                match self.plan() {
                    Ok((op, rows, cols)) => {
                        let value = compute(
                            op,
                            self.matrices[0].get_matrix_unchecked(),
                            self.matrices[1].get_matrix_unchecked(),
                        );
                        self.result = Some(
                            IcedMatrix::from_matrix(SizedMatrix { value, rows, cols }),
                        );
                    },
                    Err(e) => {
                        self.error = Some(e);
                    },
                }
            },
            MatrixMessage::ReuseResult => {
                match &self.result {
                    Some(r) => {
                        let copy = r.duplicate();
                        self.matrices.set(0, copy);
                    },
                    None => {
                        self.error = Some(MatrixError::NoResult);
                    },
                }
            },
        }
    }

    /// The message of the last error, if any.
    pub fn error_message(&self) -> (r: Option<String>)
        ensures
            r.is_some() == self.error.is_some(),
            r.is_some() ==> r.unwrap()@ == matrix_error_text(self.error.unwrap()),
    {
        match &self.error {
            Some(e) => Some(e.message()),
            None => None,
        }
    }
}

} // verus!
