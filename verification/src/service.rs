//! The methods of the `grpc_services.GRPCServices` service: their names,
//! their request paths, and what tells the paths apart.

use vstd::prelude::*;

verus! {

/// The name of the service.
pub const SERVICE_NAME: &'static str = "grpc_services.GRPCServices";

/// A unary method of the service.
#[derive(Clone, Copy, Debug, PartialEq, Eq, Structural)]
pub enum Method {
    /// `CreateCartItem`: request `CreateCartItemRequest`, response `CartItemsResponse`.
    CreateCartItem,
    /// `GetCartItems`: request `GetCartItemsRequest`, response `CartItemsResponse`.
    GetCartItems,
    /// `UpdateCartItem`: request `UpdateCartItemRequest`, response `CartItemsResponse`.
    UpdateCartItem,
    /// `DeleteCartItem`: request `DeleteCartItemRequest`, response `CartItemsResponse`.
    DeleteCartItem,
    /// `CreateProduct`: request `CreateProductRequest`, response `ProductsResponse`.
    CreateProduct,
    /// `SearchProduct`: request `SearchProductRequest`, response `ProductsResponse`.
    SearchProduct,
    /// `UpdateProduct`: request `UpdateProductRequest`, response `ProductsResponse`.
    UpdateProduct,
    /// `DeleteProduct`: request `DeleteProductRequest`, response `ProductsResponse`.
    DeleteProduct,
    /// `CreateUser`: request `CreateUserRequest`, response `UsersResponse`.
    CreateUser,
    /// `GetUser`: request `GetUserRequest`, response `UserResponse`.
    GetUser,
    /// `UpdateUser`: request `UpdateUserRequest`, response `UsersResponse`.
    UpdateUser,
    /// `DeleteUser`: request `DeleteUserRequest`, response `UsersResponse`.
    DeleteUser,
    /// `CreateCategory`: request `CreateCategoryRequest`, response `CategoriesResponse`.
    CreateCategory,
    /// `GetCategory`: request `GetCategoryRequest`, response `CategoryResponse`.
    GetCategory,
    /// `UpdateCategory`: request `UpdateCategoryRequest`, response `CategoriesResponse`.
    UpdateCategory,
    /// `DeleteCategory`: request `DeleteCategoryRequest`, response `CategoriesResponse`.
    DeleteCategory,
    /// `CreateOrder`: request `CreateOrderRequest`, response `OrdersResponse`.
    CreateOrder,
    /// `GetOrder`: request `GetOrderRequest`, response `OrderResponse`.
    GetOrder,
    /// `UpdateOrder`: request `UpdateOrderRequest`, response `OrdersResponse`.
    UpdateOrder,
    /// `DeleteOrder`: request `DeleteOrderRequest`, response `OrdersResponse`.
    DeleteOrder,
    /// `CreateOrderDetail`: request `CreateOrderDetailRequest`, response `OrderDetailsResponse`.
    CreateOrderDetail,
    /// `GetOrderDetail`: request `GetOrderDetailRequest`, response `OrderDetailResponse`.
    GetOrderDetail,
    /// `UpdateOrderDetail`: request `UpdateOrderDetailRequest`, response `OrderDetailsResponse`.
    UpdateOrderDetail,
    /// `DeleteOrderDetail`: request `DeleteOrderDetailRequest`, response `OrderDetailsResponse`.
    DeleteOrderDetail,
    /// `CreateReview`: request `CreateReviewRequest`, response `ReviewsResponse`.
    CreateReview,
    /// `GetReview`: request `GetReviewRequest`, response `ReviewResponse`.
    GetReview,
    /// `UpdateReview`: request `UpdateReviewRequest`, response `ReviewsResponse`.
    UpdateReview,
    /// `DeleteReview`: request `DeleteReviewRequest`, response `ReviewsResponse`.
    DeleteReview,
    /// `CreateProductImage`: request `CreateProductImageRequest`, response `ProductImagesResponse`.
    CreateProductImage,
    /// `GetProductImage`: request `GetProductImageRequest`, response `ProductImageResponse`.
    GetProductImage,
    /// `UpdateProductImage`: request `UpdateProductImageRequest`, response `ProductImagesResponse`.
    UpdateProductImage,
    /// `DeleteProductImage`: request `DeleteProductImageRequest`, response `ProductImagesResponse`.
    DeleteProductImage,
    /// `CreateSupplier`: request `CreateSupplierRequest`, response `SuppliersResponse`.
    CreateSupplier,
    /// `GetSupplier`: request `GetSupplierRequest`, response `SupplierResponse`.
    GetSupplier,
    /// `UpdateSupplier`: request `UpdateSupplierRequest`, response `SuppliersResponse`.
    UpdateSupplier,
    /// `DeleteSupplier`: request `DeleteSupplierRequest`, response `SuppliersResponse`.
    DeleteSupplier,
    /// `CreateInventoryItem`: request `CreateInventoryItemRequest`, response `InventoryItemsResponse`.
    CreateInventoryItem,
    /// `GetInventoryItem`: request `GetInventoryItemRequest`, response `InventoryItemResponse`.
    GetInventoryItem,
    /// `UpdateInventoryItem`: request `UpdateInventoryItemRequest`, response `InventoryItemsResponse`.
    UpdateInventoryItem,
    /// `DeleteInventoryItem`: request `DeleteInventoryItemRequest`, response `InventoryItemsResponse`.
    DeleteInventoryItem,
    /// `CreateWishlistItem`: request `CreateWishlistItemRequest`, response `WishlistItemsResponse`.
    CreateWishlistItem,
    /// `GetWishlistItem`: request `GetWishlistItemRequest`, response `WishlistItemResponse`.
    GetWishlistItem,
    /// `UpdateWishlistItem`: request `UpdateWishlistItemRequest`, response `WishlistItemsResponse`.
    UpdateWishlistItem,
    /// `DeleteWishlistItem`: request `DeleteWishlistItemRequest`, response `WishlistItemsResponse`.
    DeleteWishlistItem,
    /// `CreateProductAttribute`: request `CreateProductAttributeRequest`, response `ProductAttributesResponse`.
    CreateProductAttribute,
    /// `GetProductAttribute`: request `GetProductAttributeRequest`, response `ProductAttributeResponse`.
    GetProductAttribute,
    /// `UpdateProductAttribute`: request `UpdateProductAttributeRequest`, response `ProductAttributesResponse`.
    UpdateProductAttribute,
    /// `DeleteProductAttribute`: request `DeleteProductAttributeRequest`, response `ProductAttributesResponse`.
    DeleteProductAttribute,
    /// `CreateDiscount`: request `CreateDiscountRequest`, response `DiscountsResponse`.
    CreateDiscount,
    /// `GetDiscount`: request `GetDiscountRequest`, response `DiscountResponse`.
    GetDiscount,
    /// `UpdateDiscount`: request `UpdateDiscountRequest`, response `DiscountsResponse`.
    UpdateDiscount,
    /// `DeleteDiscount`: request `DeleteDiscountRequest`, response `DiscountsResponse`.
    DeleteDiscount,
    /// `CreateShippingMethod`: request `CreateShippingMethodRequest`, response `ShippingMethodsResponse`.
    CreateShippingMethod,
    /// `GetShippingMethod`: request `GetShippingMethodRequest`, response `ShippingMethodResponse`.
    GetShippingMethod,
    /// `UpdateShippingMethod`: request `UpdateShippingMethodRequest`, response `ShippingMethodsResponse`.
    UpdateShippingMethod,
    /// `DeleteShippingMethod`: request `DeleteShippingMethodRequest`, response `ShippingMethodsResponse`.
    DeleteShippingMethod,
    /// `CreateUserRole`: request `CreateUserRoleRequest`, response `UserRolesResponse`.
    CreateUserRole,
    /// `GetUserRole`: request `GetUserRoleRequest`, response `UserRoleResponse`.
    GetUserRole,
    /// `UpdateUserRole`: request `UpdateUserRoleRequest`, response `UserRolesResponse`.
    UpdateUserRole,
    /// `DeleteUserRole`: request `DeleteUserRoleRequest`, response `UserRolesResponse`.
    DeleteUserRole,
    /// `CreateUserRolesMapping`: request `CreateUserRolesMappingRequest`, response `UserRolesMappingsResponse`.
    CreateUserRolesMapping,
    /// `GetUserRolesMapping`: request `GetUserRolesMappingRequest`, response `UserRolesMappingResponse`.
    GetUserRolesMapping,
    /// `UpdateUserRolesMapping`: request `UpdateUserRolesMappingRequest`, response `UserRolesMappingsResponse`.
    UpdateUserRolesMapping,
    /// `DeleteUserRolesMapping`: request `DeleteUserRolesMappingRequest`, response `UserRolesMappingsResponse`.
    DeleteUserRolesMapping,
    /// `CreateTransaction`: request `CreateTransactionRequest`, response `TransactionsResponse`.
    CreateTransaction,
    /// `GetTransaction`: request `GetTransactionRequest`, response `TransactionResponse`.
    GetTransaction,
    /// `UpdateTransaction`: request `UpdateTransactionRequest`, response `TransactionsResponse`.
    UpdateTransaction,
    /// `DeleteTransaction`: request `DeleteTransactionRequest`, response `TransactionsResponse`.
    DeleteTransaction,
    /// `CreateNewsletterSubscriber`: request `CreateNewsletterSubscriberRequest`, response `NewsletterSubscribersResponse`.
    CreateNewsletterSubscriber,
    /// `GetNewsletterSubscriber`: request `GetNewsletterSubscriberRequest`, response `NewsletterSubscriberResponse`.
    GetNewsletterSubscriber,
    /// `UpdateNewsletterSubscriber`: request `UpdateNewsletterSubscriberRequest`, response `NewsletterSubscribersResponse`.
    UpdateNewsletterSubscriber,
    /// `DeleteNewsletterSubscriber`: request `DeleteNewsletterSubscriberRequest`, response `NewsletterSubscribersResponse`.
    DeleteNewsletterSubscriber,
    /// `CreateProductRating`: request `CreateProductRatingRequest`, response `ProductRatingsResponse`.
    CreateProductRating,
    /// `GetProductRating`: request `GetProductRatingRequest`, response `ProductRatingResponse`.
    GetProductRating,
    /// `UpdateProductRating`: request `UpdateProductRatingRequest`, response `ProductRatingsResponse`.
    UpdateProductRating,
    /// `DeleteProductRating`: request `DeleteProductRatingRequest`, response `ProductRatingsResponse`.
    DeleteProductRating,
    /// `CreateSize`: request `CreateSizeRequest`, response `SizesResponse`.
    CreateSize,
    /// `GetSize`: request `GetSizeRequest`, response `SizeResponse`.
    GetSize,
    /// `UpdateSize`: request `UpdateSizeRequest`, response `SizesResponse`.
    UpdateSize,
    /// `DeleteSize`: request `DeleteSizeRequest`, response `SizesResponse`.
    DeleteSize,
    /// `CreateColor`: request `CreateColorRequest`, response `ColorsResponse`.
    CreateColor,
    /// `GetColor`: request `GetColorRequest`, response `ColorResponse`.
    GetColor,
    /// `UpdateColor`: request `UpdateColorRequest`, response `ColorsResponse`.
    UpdateColor,
    /// `DeleteColor`: request `DeleteColorRequest`, response `ColorsResponse`.
    DeleteColor,
    /// `CreateProductCategoryMapping`: request `CreateProductCategoryMappingRequest`, response `ProductCategoryMappingsResponse`.
    CreateProductCategoryMapping,
    /// `GetProductCategoryMapping`: request `GetProductCategoryMappingRequest`, response `ProductCategoryMappingResponse`.
    GetProductCategoryMapping,
    /// `DeleteProductCategoryMapping`: request `DeleteProductCategoryMappingRequest`, response `ProductCategoryMappingsResponse`.
    DeleteProductCategoryMapping,
    /// `CreateProductAttributeMapping`: request `CreateProductAttributeMappingRequest`, response `ProductAttributeMappingsResponse`.
    CreateProductAttributeMapping,
    /// `GetProductAttributeMapping`: request `GetProductAttributeMappingRequest`, response `ProductAttributeMappingResponse`.
    GetProductAttributeMapping,
    /// `DeleteProductAttributeMapping`: request `DeleteProductAttributeMappingRequest`, response `ProductAttributeMappingsResponse`.
    DeleteProductAttributeMapping,
    /// `CreateUserRoleMapping`: request `CreateUserRoleMappingRequest`, response `UserRoleMappingsResponse`.
    CreateUserRoleMapping,
    /// `GetUserRoleMapping`: request `GetUserRoleMappingRequest`, response `UserRoleMappingResponse`.
    GetUserRoleMapping,
    /// `DeleteUserRoleMapping`: request `DeleteUserRoleMappingRequest`, response `UserRoleMappingsResponse`.
    DeleteUserRoleMapping,
    /// `CreateProductSizeMapping`: request `CreateProductSizeMappingRequest`, response `ProductSizeMappingsResponse`.
    CreateProductSizeMapping,
    /// `GetProductSizeMapping`: request `GetProductSizeMappingRequest`, response `ProductSizeMappingResponse`.
    GetProductSizeMapping,
    /// `DeleteProductSizeMapping`: request `DeleteProductSizeMappingRequest`, response `ProductSizeMappingsResponse`.
    DeleteProductSizeMapping,
    /// `CreateProductColorMapping`: request `CreateProductColorMappingRequest`, response `ProductColorMappingsResponse`.
    CreateProductColorMapping,
    /// `GetProductColorMapping`: request `GetProductColorMappingRequest`, response `ProductColorMappingResponse`.
    GetProductColorMapping,
    /// `DeleteProductColorMapping`: request `DeleteProductColorMappingRequest`, response `ProductColorMappingsResponse`.
    DeleteProductColorMapping,
    /// `CreateProductVariant`: request `CreateProductVariantRequest`, response `ProductVariantsResponse`.
    CreateProductVariant,
    /// `GetProductVariant`: request `GetProductVariantRequest`, response `ProductVariantResponse`.
    GetProductVariant,
    /// `UpdateProductVariant`: request `UpdateProductVariantRequest`, response `ProductVariantsResponse`.
    UpdateProductVariant,
    /// `DeleteProductVariant`: request `DeleteProductVariantRequest`, response `ProductVariantsResponse`.
    DeleteProductVariant,
    /// `CreateEventLog`: request `CreateEventLogRequest`, response `EventLogsResponse`.
    CreateEventLog,
    /// `GetEventLog`: request `GetEventLogRequest`, response `EventLogResponse`.
    GetEventLog,
    /// `UpdateEventLog`: request `UpdateEventLogRequest`, response `EventLogsResponse`.
    UpdateEventLog,
    /// `DeleteEventLog`: request `DeleteEventLogRequest`, response `EventLogsResponse`.
    DeleteEventLog,
    /// `CreateUserActivity`: request `CreateUserActivityRequest`, response `UserActivitiesResponse`.
    CreateUserActivity,
    /// `GetUserActivity`: request `GetUserActivityRequest`, response `UserActivityResponse`.
    GetUserActivity,
    /// `UpdateUserActivity`: request `UpdateUserActivityRequest`, response `UserActivitiesResponse`.
    UpdateUserActivity,
    /// `DeleteUserActivity`: request `DeleteUserActivityRequest`, response `UserActivitiesResponse`.
    DeleteUserActivity,
    /// `CreateInventoryLog`: request `CreateInventoryLogRequest`, response `InventoryLogsResponse`.
    CreateInventoryLog,
    /// `GetInventoryLog`: request `GetInventoryLogRequest`, response `InventoryLogResponse`.
    GetInventoryLog,
    /// `UpdateInventoryLog`: request `UpdateInventoryLogRequest`, response `InventoryLogsResponse`.
    UpdateInventoryLog,
    /// `DeleteInventoryLog`: request `DeleteInventoryLogRequest`, response `InventoryLogsResponse`.
    DeleteInventoryLog,
    /// `CreatePromotion`: request `CreatePromotionRequest`, response `PromotionsResponse`.
    CreatePromotion,
    /// `GetPromotion`: request `GetPromotionRequest`, response `PromotionResponse`.
    GetPromotion,
    /// `UpdatePromotion`: request `UpdatePromotionRequest`, response `PromotionsResponse`.
    UpdatePromotion,
    /// `DeletePromotion`: request `DeletePromotionRequest`, response `PromotionsResponse`.
    DeletePromotion,
    /// `CreateShippingZone`: request `CreateShippingZoneRequest`, response `ShippingZonesResponse`.
    CreateShippingZone,
    /// `GetShippingZone`: request `GetShippingZoneRequest`, response `ShippingZoneResponse`.
    GetShippingZone,
    /// `UpdateShippingZone`: request `UpdateShippingZoneRequest`, response `ShippingZonesResponse`.
    UpdateShippingZone,
    /// `DeleteShippingZone`: request `DeleteShippingZoneRequest`, response `ShippingZonesResponse`.
    DeleteShippingZone,
    /// `CreatePaymentMethod`: request `CreatePaymentMethodRequest`, response `PaymentMethodsResponse`.
    CreatePaymentMethod,
    /// `GetPaymentMethod`: request `GetPaymentMethodRequest`, response `PaymentMethodResponse`.
    GetPaymentMethod,
    /// `UpdatePaymentMethod`: request `UpdatePaymentMethodRequest`, response `PaymentMethodsResponse`.
    UpdatePaymentMethod,
    /// `DeletePaymentMethod`: request `DeletePaymentMethodRequest`, response `PaymentMethodsResponse`.
    DeletePaymentMethod,
}

/// The name of method `m`.
pub open spec fn spec_method_name(m: Method) -> Seq<char> {
    match m {
            Method::CreateCartItem => "CreateCartItem"@,
            Method::GetCartItems => "GetCartItems"@,
            Method::UpdateCartItem => "UpdateCartItem"@,
            Method::DeleteCartItem => "DeleteCartItem"@,
            Method::CreateProduct => "CreateProduct"@,
            Method::SearchProduct => "SearchProduct"@,
            Method::UpdateProduct => "UpdateProduct"@,
            Method::DeleteProduct => "DeleteProduct"@,
            Method::CreateUser => "CreateUser"@,
            Method::GetUser => "GetUser"@,
            Method::UpdateUser => "UpdateUser"@,
            Method::DeleteUser => "DeleteUser"@,
            Method::CreateCategory => "CreateCategory"@,
            Method::GetCategory => "GetCategory"@,
            Method::UpdateCategory => "UpdateCategory"@,
            Method::DeleteCategory => "DeleteCategory"@,
            Method::CreateOrder => "CreateOrder"@,
            Method::GetOrder => "GetOrder"@,
            Method::UpdateOrder => "UpdateOrder"@,
            Method::DeleteOrder => "DeleteOrder"@,
            Method::CreateOrderDetail => "CreateOrderDetail"@,
            Method::GetOrderDetail => "GetOrderDetail"@,
            Method::UpdateOrderDetail => "UpdateOrderDetail"@,
            Method::DeleteOrderDetail => "DeleteOrderDetail"@,
            Method::CreateReview => "CreateReview"@,
            Method::GetReview => "GetReview"@,
            Method::UpdateReview => "UpdateReview"@,
            Method::DeleteReview => "DeleteReview"@,
            Method::CreateProductImage => "CreateProductImage"@,
            Method::GetProductImage => "GetProductImage"@,
            Method::UpdateProductImage => "UpdateProductImage"@,
            Method::DeleteProductImage => "DeleteProductImage"@,
            Method::CreateSupplier => "CreateSupplier"@,
            Method::GetSupplier => "GetSupplier"@,
            Method::UpdateSupplier => "UpdateSupplier"@,
            Method::DeleteSupplier => "DeleteSupplier"@,
            Method::CreateInventoryItem => "CreateInventoryItem"@,
            Method::GetInventoryItem => "GetInventoryItem"@,
            Method::UpdateInventoryItem => "UpdateInventoryItem"@,
            Method::DeleteInventoryItem => "DeleteInventoryItem"@,
            Method::CreateWishlistItem => "CreateWishlistItem"@,
            Method::GetWishlistItem => "GetWishlistItem"@,
            Method::UpdateWishlistItem => "UpdateWishlistItem"@,
            Method::DeleteWishlistItem => "DeleteWishlistItem"@,
            Method::CreateProductAttribute => "CreateProductAttribute"@,
            Method::GetProductAttribute => "GetProductAttribute"@,
            Method::UpdateProductAttribute => "UpdateProductAttribute"@,
            Method::DeleteProductAttribute => "DeleteProductAttribute"@,
            Method::CreateDiscount => "CreateDiscount"@,
            Method::GetDiscount => "GetDiscount"@,
            Method::UpdateDiscount => "UpdateDiscount"@,
            Method::DeleteDiscount => "DeleteDiscount"@,
            Method::CreateShippingMethod => "CreateShippingMethod"@,
            Method::GetShippingMethod => "GetShippingMethod"@,
            Method::UpdateShippingMethod => "UpdateShippingMethod"@,
            Method::DeleteShippingMethod => "DeleteShippingMethod"@,
            Method::CreateUserRole => "CreateUserRole"@,
            Method::GetUserRole => "GetUserRole"@,
            Method::UpdateUserRole => "UpdateUserRole"@,
            Method::DeleteUserRole => "DeleteUserRole"@,
            Method::CreateUserRolesMapping => "CreateUserRolesMapping"@,
            Method::GetUserRolesMapping => "GetUserRolesMapping"@,
            Method::UpdateUserRolesMapping => "UpdateUserRolesMapping"@,
            Method::DeleteUserRolesMapping => "DeleteUserRolesMapping"@,
            Method::CreateTransaction => "CreateTransaction"@,
            Method::GetTransaction => "GetTransaction"@,
            Method::UpdateTransaction => "UpdateTransaction"@,
            Method::DeleteTransaction => "DeleteTransaction"@,
            Method::CreateNewsletterSubscriber => "CreateNewsletterSubscriber"@,
            Method::GetNewsletterSubscriber => "GetNewsletterSubscriber"@,
            Method::UpdateNewsletterSubscriber => "UpdateNewsletterSubscriber"@,
            Method::DeleteNewsletterSubscriber => "DeleteNewsletterSubscriber"@,
            Method::CreateProductRating => "CreateProductRating"@,
            Method::GetProductRating => "GetProductRating"@,
            Method::UpdateProductRating => "UpdateProductRating"@,
            Method::DeleteProductRating => "DeleteProductRating"@,
            Method::CreateSize => "CreateSize"@,
            Method::GetSize => "GetSize"@,
            Method::UpdateSize => "UpdateSize"@,
            Method::DeleteSize => "DeleteSize"@,
            Method::CreateColor => "CreateColor"@,
            Method::GetColor => "GetColor"@,
            Method::UpdateColor => "UpdateColor"@,
            Method::DeleteColor => "DeleteColor"@,
            Method::CreateProductCategoryMapping => "CreateProductCategoryMapping"@,
            Method::GetProductCategoryMapping => "GetProductCategoryMapping"@,
            Method::DeleteProductCategoryMapping => "DeleteProductCategoryMapping"@,
            Method::CreateProductAttributeMapping => "CreateProductAttributeMapping"@,
            Method::GetProductAttributeMapping => "GetProductAttributeMapping"@,
            Method::DeleteProductAttributeMapping => "DeleteProductAttributeMapping"@,
            Method::CreateUserRoleMapping => "CreateUserRoleMapping"@,
            Method::GetUserRoleMapping => "GetUserRoleMapping"@,
            Method::DeleteUserRoleMapping => "DeleteUserRoleMapping"@,
            Method::CreateProductSizeMapping => "CreateProductSizeMapping"@,
            Method::GetProductSizeMapping => "GetProductSizeMapping"@,
            Method::DeleteProductSizeMapping => "DeleteProductSizeMapping"@,
            Method::CreateProductColorMapping => "CreateProductColorMapping"@,
            Method::GetProductColorMapping => "GetProductColorMapping"@,
            Method::DeleteProductColorMapping => "DeleteProductColorMapping"@,
            Method::CreateProductVariant => "CreateProductVariant"@,
            Method::GetProductVariant => "GetProductVariant"@,
            Method::UpdateProductVariant => "UpdateProductVariant"@,
            Method::DeleteProductVariant => "DeleteProductVariant"@,
            Method::CreateEventLog => "CreateEventLog"@,
            Method::GetEventLog => "GetEventLog"@,
            Method::UpdateEventLog => "UpdateEventLog"@,
            Method::DeleteEventLog => "DeleteEventLog"@,
            Method::CreateUserActivity => "CreateUserActivity"@,
            Method::GetUserActivity => "GetUserActivity"@,
            Method::UpdateUserActivity => "UpdateUserActivity"@,
            Method::DeleteUserActivity => "DeleteUserActivity"@,
            Method::CreateInventoryLog => "CreateInventoryLog"@,
            Method::GetInventoryLog => "GetInventoryLog"@,
            Method::UpdateInventoryLog => "UpdateInventoryLog"@,
            Method::DeleteInventoryLog => "DeleteInventoryLog"@,
            Method::CreatePromotion => "CreatePromotion"@,
            Method::GetPromotion => "GetPromotion"@,
            Method::UpdatePromotion => "UpdatePromotion"@,
            Method::DeletePromotion => "DeletePromotion"@,
            Method::CreateShippingZone => "CreateShippingZone"@,
            Method::GetShippingZone => "GetShippingZone"@,
            Method::UpdateShippingZone => "UpdateShippingZone"@,
            Method::DeleteShippingZone => "DeleteShippingZone"@,
            Method::CreatePaymentMethod => "CreatePaymentMethod"@,
            Method::GetPaymentMethod => "GetPaymentMethod"@,
            Method::UpdatePaymentMethod => "UpdatePaymentMethod"@,
            Method::DeletePaymentMethod => "DeletePaymentMethod"@,
    }
}

/// The request path of method `m`.
pub open spec fn spec_method_path(m: Method) -> Seq<char> {
    match m {
            Method::CreateCartItem => "/grpc_services.GRPCServices/CreateCartItem"@,
            Method::GetCartItems => "/grpc_services.GRPCServices/GetCartItems"@,
            Method::UpdateCartItem => "/grpc_services.GRPCServices/UpdateCartItem"@,
            Method::DeleteCartItem => "/grpc_services.GRPCServices/DeleteCartItem"@,
            Method::CreateProduct => "/grpc_services.GRPCServices/CreateProduct"@,
            Method::SearchProduct => "/grpc_services.GRPCServices/SearchProduct"@,
            Method::UpdateProduct => "/grpc_services.GRPCServices/UpdateProduct"@,
            Method::DeleteProduct => "/grpc_services.GRPCServices/DeleteProduct"@,
            Method::CreateUser => "/grpc_services.GRPCServices/CreateUser"@,
            Method::GetUser => "/grpc_services.GRPCServices/GetUser"@,
            Method::UpdateUser => "/grpc_services.GRPCServices/UpdateUser"@,
            Method::DeleteUser => "/grpc_services.GRPCServices/DeleteUser"@,
            Method::CreateCategory => "/grpc_services.GRPCServices/CreateCategory"@,
            Method::GetCategory => "/grpc_services.GRPCServices/GetCategory"@,
            Method::UpdateCategory => "/grpc_services.GRPCServices/UpdateCategory"@,
            Method::DeleteCategory => "/grpc_services.GRPCServices/DeleteCategory"@,
            Method::CreateOrder => "/grpc_services.GRPCServices/CreateOrder"@,
            Method::GetOrder => "/grpc_services.GRPCServices/GetOrder"@,
            Method::UpdateOrder => "/grpc_services.GRPCServices/UpdateOrder"@,
            Method::DeleteOrder => "/grpc_services.GRPCServices/DeleteOrder"@,
            Method::CreateOrderDetail => "/grpc_services.GRPCServices/CreateOrderDetail"@,
            Method::GetOrderDetail => "/grpc_services.GRPCServices/GetOrderDetail"@,
            Method::UpdateOrderDetail => "/grpc_services.GRPCServices/UpdateOrderDetail"@,
            Method::DeleteOrderDetail => "/grpc_services.GRPCServices/DeleteOrderDetail"@,
            Method::CreateReview => "/grpc_services.GRPCServices/CreateReview"@,
            Method::GetReview => "/grpc_services.GRPCServices/GetReview"@,
            Method::UpdateReview => "/grpc_services.GRPCServices/UpdateReview"@,
            Method::DeleteReview => "/grpc_services.GRPCServices/DeleteReview"@,
            Method::CreateProductImage => "/grpc_services.GRPCServices/CreateProductImage"@,
            Method::GetProductImage => "/grpc_services.GRPCServices/GetProductImage"@,
            Method::UpdateProductImage => "/grpc_services.GRPCServices/UpdateProductImage"@,
            Method::DeleteProductImage => "/grpc_services.GRPCServices/DeleteProductImage"@,
            Method::CreateSupplier => "/grpc_services.GRPCServices/CreateSupplier"@,
            Method::GetSupplier => "/grpc_services.GRPCServices/GetSupplier"@,
            Method::UpdateSupplier => "/grpc_services.GRPCServices/UpdateSupplier"@,
            Method::DeleteSupplier => "/grpc_services.GRPCServices/DeleteSupplier"@,
            Method::CreateInventoryItem => "/grpc_services.GRPCServices/CreateInventoryItem"@,
            Method::GetInventoryItem => "/grpc_services.GRPCServices/GetInventoryItem"@,
            Method::UpdateInventoryItem => "/grpc_services.GRPCServices/UpdateInventoryItem"@,
            Method::DeleteInventoryItem => "/grpc_services.GRPCServices/DeleteInventoryItem"@,
            Method::CreateWishlistItem => "/grpc_services.GRPCServices/CreateWishlistItem"@,
            Method::GetWishlistItem => "/grpc_services.GRPCServices/GetWishlistItem"@,
            Method::UpdateWishlistItem => "/grpc_services.GRPCServices/UpdateWishlistItem"@,
            Method::DeleteWishlistItem => "/grpc_services.GRPCServices/DeleteWishlistItem"@,
            Method::CreateProductAttribute => "/grpc_services.GRPCServices/CreateProductAttribute"@,
            Method::GetProductAttribute => "/grpc_services.GRPCServices/GetProductAttribute"@,
            Method::UpdateProductAttribute => "/grpc_services.GRPCServices/UpdateProductAttribute"@,
            Method::DeleteProductAttribute => "/grpc_services.GRPCServices/DeleteProductAttribute"@,
            Method::CreateDiscount => "/grpc_services.GRPCServices/CreateDiscount"@,
            Method::GetDiscount => "/grpc_services.GRPCServices/GetDiscount"@,
            Method::UpdateDiscount => "/grpc_services.GRPCServices/UpdateDiscount"@,
            Method::DeleteDiscount => "/grpc_services.GRPCServices/DeleteDiscount"@,
            Method::CreateShippingMethod => "/grpc_services.GRPCServices/CreateShippingMethod"@,
            Method::GetShippingMethod => "/grpc_services.GRPCServices/GetShippingMethod"@,
            Method::UpdateShippingMethod => "/grpc_services.GRPCServices/UpdateShippingMethod"@,
            Method::DeleteShippingMethod => "/grpc_services.GRPCServices/DeleteShippingMethod"@,
            Method::CreateUserRole => "/grpc_services.GRPCServices/CreateUserRole"@,
            Method::GetUserRole => "/grpc_services.GRPCServices/GetUserRole"@,
            Method::UpdateUserRole => "/grpc_services.GRPCServices/UpdateUserRole"@,
            Method::DeleteUserRole => "/grpc_services.GRPCServices/DeleteUserRole"@,
            Method::CreateUserRolesMapping => "/grpc_services.GRPCServices/CreateUserRolesMapping"@,
            Method::GetUserRolesMapping => "/grpc_services.GRPCServices/GetUserRolesMapping"@,
            Method::UpdateUserRolesMapping => "/grpc_services.GRPCServices/UpdateUserRolesMapping"@,
            Method::DeleteUserRolesMapping => "/grpc_services.GRPCServices/DeleteUserRolesMapping"@,
            Method::CreateTransaction => "/grpc_services.GRPCServices/CreateTransaction"@,
            Method::GetTransaction => "/grpc_services.GRPCServices/GetTransaction"@,
            Method::UpdateTransaction => "/grpc_services.GRPCServices/UpdateTransaction"@,
            Method::DeleteTransaction => "/grpc_services.GRPCServices/DeleteTransaction"@,
            Method::CreateNewsletterSubscriber => "/grpc_services.GRPCServices/CreateNewsletterSubscriber"@,
            Method::GetNewsletterSubscriber => "/grpc_services.GRPCServices/GetNewsletterSubscriber"@,
            Method::UpdateNewsletterSubscriber => "/grpc_services.GRPCServices/UpdateNewsletterSubscriber"@,
            Method::DeleteNewsletterSubscriber => "/grpc_services.GRPCServices/DeleteNewsletterSubscriber"@,
            Method::CreateProductRating => "/grpc_services.GRPCServices/CreateProductRating"@,
            Method::GetProductRating => "/grpc_services.GRPCServices/GetProductRating"@,
            Method::UpdateProductRating => "/grpc_services.GRPCServices/UpdateProductRating"@,
            Method::DeleteProductRating => "/grpc_services.GRPCServices/DeleteProductRating"@,
            Method::CreateSize => "/grpc_services.GRPCServices/CreateSize"@,
            Method::GetSize => "/grpc_services.GRPCServices/GetSize"@,
            Method::UpdateSize => "/grpc_services.GRPCServices/UpdateSize"@,
            Method::DeleteSize => "/grpc_services.GRPCServices/DeleteSize"@,
            Method::CreateColor => "/grpc_services.GRPCServices/CreateColor"@,
            Method::GetColor => "/grpc_services.GRPCServices/GetColor"@,
            Method::UpdateColor => "/grpc_services.GRPCServices/UpdateColor"@,
            Method::DeleteColor => "/grpc_services.GRPCServices/DeleteColor"@,
            Method::CreateProductCategoryMapping => "/grpc_services.GRPCServices/CreateProductCategoryMapping"@,
            Method::GetProductCategoryMapping => "/grpc_services.GRPCServices/GetProductCategoryMapping"@,
            Method::DeleteProductCategoryMapping => "/grpc_services.GRPCServices/DeleteProductCategoryMapping"@,
            Method::CreateProductAttributeMapping => "/grpc_services.GRPCServices/CreateProductAttributeMapping"@,
            Method::GetProductAttributeMapping => "/grpc_services.GRPCServices/GetProductAttributeMapping"@,
            Method::DeleteProductAttributeMapping => "/grpc_services.GRPCServices/DeleteProductAttributeMapping"@,
            Method::CreateUserRoleMapping => "/grpc_services.GRPCServices/CreateUserRoleMapping"@,
            Method::GetUserRoleMapping => "/grpc_services.GRPCServices/GetUserRoleMapping"@,
            Method::DeleteUserRoleMapping => "/grpc_services.GRPCServices/DeleteUserRoleMapping"@,
            Method::CreateProductSizeMapping => "/grpc_services.GRPCServices/CreateProductSizeMapping"@,
            Method::GetProductSizeMapping => "/grpc_services.GRPCServices/GetProductSizeMapping"@,
            Method::DeleteProductSizeMapping => "/grpc_services.GRPCServices/DeleteProductSizeMapping"@,
            Method::CreateProductColorMapping => "/grpc_services.GRPCServices/CreateProductColorMapping"@,
            Method::GetProductColorMapping => "/grpc_services.GRPCServices/GetProductColorMapping"@,
            Method::DeleteProductColorMapping => "/grpc_services.GRPCServices/DeleteProductColorMapping"@,
            Method::CreateProductVariant => "/grpc_services.GRPCServices/CreateProductVariant"@,
            Method::GetProductVariant => "/grpc_services.GRPCServices/GetProductVariant"@,
            Method::UpdateProductVariant => "/grpc_services.GRPCServices/UpdateProductVariant"@,
            Method::DeleteProductVariant => "/grpc_services.GRPCServices/DeleteProductVariant"@,
            Method::CreateEventLog => "/grpc_services.GRPCServices/CreateEventLog"@,
            Method::GetEventLog => "/grpc_services.GRPCServices/GetEventLog"@,
            Method::UpdateEventLog => "/grpc_services.GRPCServices/UpdateEventLog"@,
            Method::DeleteEventLog => "/grpc_services.GRPCServices/DeleteEventLog"@,
            Method::CreateUserActivity => "/grpc_services.GRPCServices/CreateUserActivity"@,
            Method::GetUserActivity => "/grpc_services.GRPCServices/GetUserActivity"@,
            Method::UpdateUserActivity => "/grpc_services.GRPCServices/UpdateUserActivity"@,
            Method::DeleteUserActivity => "/grpc_services.GRPCServices/DeleteUserActivity"@,
            Method::CreateInventoryLog => "/grpc_services.GRPCServices/CreateInventoryLog"@,
            Method::GetInventoryLog => "/grpc_services.GRPCServices/GetInventoryLog"@,
            Method::UpdateInventoryLog => "/grpc_services.GRPCServices/UpdateInventoryLog"@,
            Method::DeleteInventoryLog => "/grpc_services.GRPCServices/DeleteInventoryLog"@,
            Method::CreatePromotion => "/grpc_services.GRPCServices/CreatePromotion"@,
            Method::GetPromotion => "/grpc_services.GRPCServices/GetPromotion"@,
            Method::UpdatePromotion => "/grpc_services.GRPCServices/UpdatePromotion"@,
            Method::DeletePromotion => "/grpc_services.GRPCServices/DeletePromotion"@,
            Method::CreateShippingZone => "/grpc_services.GRPCServices/CreateShippingZone"@,
            Method::GetShippingZone => "/grpc_services.GRPCServices/GetShippingZone"@,
            Method::UpdateShippingZone => "/grpc_services.GRPCServices/UpdateShippingZone"@,
            Method::DeleteShippingZone => "/grpc_services.GRPCServices/DeleteShippingZone"@,
            Method::CreatePaymentMethod => "/grpc_services.GRPCServices/CreatePaymentMethod"@,
            Method::GetPaymentMethod => "/grpc_services.GRPCServices/GetPaymentMethod"@,
            Method::UpdatePaymentMethod => "/grpc_services.GRPCServices/UpdatePaymentMethod"@,
            Method::DeletePaymentMethod => "/grpc_services.GRPCServices/DeletePaymentMethod"@,
    }
}

/// The number of methods.
pub const METHOD_COUNT: usize = 127;

/// The methods, in the order in which the service declares them.
pub open spec fn spec_methods() -> Seq<Method> {
    seq![
            Method::CreateCartItem,
            Method::GetCartItems,
            Method::UpdateCartItem,
            Method::DeleteCartItem,
            Method::CreateProduct,
            Method::SearchProduct,
            Method::UpdateProduct,
            Method::DeleteProduct,
            Method::CreateUser,
            Method::GetUser,
            Method::UpdateUser,
            Method::DeleteUser,
            Method::CreateCategory,
            Method::GetCategory,
            Method::UpdateCategory,
            Method::DeleteCategory,
            Method::CreateOrder,
            Method::GetOrder,
            Method::UpdateOrder,
            Method::DeleteOrder,
            Method::CreateOrderDetail,
            Method::GetOrderDetail,
            Method::UpdateOrderDetail,
            Method::DeleteOrderDetail,
            Method::CreateReview,
            Method::GetReview,
            Method::UpdateReview,
            Method::DeleteReview,
            Method::CreateProductImage,
            Method::GetProductImage,
            Method::UpdateProductImage,
            Method::DeleteProductImage,
            Method::CreateSupplier,
            Method::GetSupplier,
            Method::UpdateSupplier,
            Method::DeleteSupplier,
            Method::CreateInventoryItem,
            Method::GetInventoryItem,
            Method::UpdateInventoryItem,
            Method::DeleteInventoryItem,
            Method::CreateWishlistItem,
            Method::GetWishlistItem,
            Method::UpdateWishlistItem,
            Method::DeleteWishlistItem,
            Method::CreateProductAttribute,
            Method::GetProductAttribute,
            Method::UpdateProductAttribute,
            Method::DeleteProductAttribute,
            Method::CreateDiscount,
            Method::GetDiscount,
            Method::UpdateDiscount,
            Method::DeleteDiscount,
            Method::CreateShippingMethod,
            Method::GetShippingMethod,
            Method::UpdateShippingMethod,
            Method::DeleteShippingMethod,
            Method::CreateUserRole,
            Method::GetUserRole,
            Method::UpdateUserRole,
            Method::DeleteUserRole,
            Method::CreateUserRolesMapping,
            Method::GetUserRolesMapping,
            Method::UpdateUserRolesMapping,
            Method::DeleteUserRolesMapping,
            Method::CreateTransaction,
            Method::GetTransaction,
            Method::UpdateTransaction,
            Method::DeleteTransaction,
            Method::CreateNewsletterSubscriber,
            Method::GetNewsletterSubscriber,
            Method::UpdateNewsletterSubscriber,
            Method::DeleteNewsletterSubscriber,
            Method::CreateProductRating,
            Method::GetProductRating,
            Method::UpdateProductRating,
            Method::DeleteProductRating,
            Method::CreateSize,
            Method::GetSize,
            Method::UpdateSize,
            Method::DeleteSize,
            Method::CreateColor,
            Method::GetColor,
            Method::UpdateColor,
            Method::DeleteColor,
            Method::CreateProductCategoryMapping,
            Method::GetProductCategoryMapping,
            Method::DeleteProductCategoryMapping,
            Method::CreateProductAttributeMapping,
            Method::GetProductAttributeMapping,
            Method::DeleteProductAttributeMapping,
            Method::CreateUserRoleMapping,
            Method::GetUserRoleMapping,
            Method::DeleteUserRoleMapping,
            Method::CreateProductSizeMapping,
            Method::GetProductSizeMapping,
            Method::DeleteProductSizeMapping,
            Method::CreateProductColorMapping,
            Method::GetProductColorMapping,
            Method::DeleteProductColorMapping,
            Method::CreateProductVariant,
            Method::GetProductVariant,
            Method::UpdateProductVariant,
            Method::DeleteProductVariant,
            Method::CreateEventLog,
            Method::GetEventLog,
            Method::UpdateEventLog,
            Method::DeleteEventLog,
            Method::CreateUserActivity,
            Method::GetUserActivity,
            Method::UpdateUserActivity,
            Method::DeleteUserActivity,
            Method::CreateInventoryLog,
            Method::GetInventoryLog,
            Method::UpdateInventoryLog,
            Method::DeleteInventoryLog,
            Method::CreatePromotion,
            Method::GetPromotion,
            Method::UpdatePromotion,
            Method::DeletePromotion,
            Method::CreateShippingZone,
            Method::GetShippingZone,
            Method::UpdateShippingZone,
            Method::DeleteShippingZone,
            Method::CreatePaymentMethod,
            Method::GetPaymentMethod,
            Method::UpdatePaymentMethod,
            Method::DeletePaymentMethod,
        ]
}

impl Method {
    /// The name of the method, as gRPC names it.
    pub fn name(&self) -> (r: &'static str)
        ensures
            r@ == spec_method_name(*self),
    {
        match self {
            Method::CreateCartItem => "CreateCartItem",
            Method::GetCartItems => "GetCartItems",
            Method::UpdateCartItem => "UpdateCartItem",
            Method::DeleteCartItem => "DeleteCartItem",
            Method::CreateProduct => "CreateProduct",
            Method::SearchProduct => "SearchProduct",
            Method::UpdateProduct => "UpdateProduct",
            Method::DeleteProduct => "DeleteProduct",
            Method::CreateUser => "CreateUser",
            Method::GetUser => "GetUser",
            Method::UpdateUser => "UpdateUser",
            Method::DeleteUser => "DeleteUser",
            Method::CreateCategory => "CreateCategory",
            Method::GetCategory => "GetCategory",
            Method::UpdateCategory => "UpdateCategory",
            Method::DeleteCategory => "DeleteCategory",
            Method::CreateOrder => "CreateOrder",
            Method::GetOrder => "GetOrder",
            Method::UpdateOrder => "UpdateOrder",
            Method::DeleteOrder => "DeleteOrder",
            Method::CreateOrderDetail => "CreateOrderDetail",
            Method::GetOrderDetail => "GetOrderDetail",
            Method::UpdateOrderDetail => "UpdateOrderDetail",
            Method::DeleteOrderDetail => "DeleteOrderDetail",
            Method::CreateReview => "CreateReview",
            Method::GetReview => "GetReview",
            Method::UpdateReview => "UpdateReview",
            Method::DeleteReview => "DeleteReview",
            Method::CreateProductImage => "CreateProductImage",
            Method::GetProductImage => "GetProductImage",
            Method::UpdateProductImage => "UpdateProductImage",
            Method::DeleteProductImage => "DeleteProductImage",
            Method::CreateSupplier => "CreateSupplier",
            Method::GetSupplier => "GetSupplier",
            Method::UpdateSupplier => "UpdateSupplier",
            Method::DeleteSupplier => "DeleteSupplier",
            Method::CreateInventoryItem => "CreateInventoryItem",
            Method::GetInventoryItem => "GetInventoryItem",
            Method::UpdateInventoryItem => "UpdateInventoryItem",
            Method::DeleteInventoryItem => "DeleteInventoryItem",
            Method::CreateWishlistItem => "CreateWishlistItem",
            Method::GetWishlistItem => "GetWishlistItem",
            Method::UpdateWishlistItem => "UpdateWishlistItem",
            Method::DeleteWishlistItem => "DeleteWishlistItem",
            Method::CreateProductAttribute => "CreateProductAttribute",
            Method::GetProductAttribute => "GetProductAttribute",
            Method::UpdateProductAttribute => "UpdateProductAttribute",
            Method::DeleteProductAttribute => "DeleteProductAttribute",
            Method::CreateDiscount => "CreateDiscount",
            Method::GetDiscount => "GetDiscount",
            Method::UpdateDiscount => "UpdateDiscount",
            Method::DeleteDiscount => "DeleteDiscount",
            Method::CreateShippingMethod => "CreateShippingMethod",
            Method::GetShippingMethod => "GetShippingMethod",
            Method::UpdateShippingMethod => "UpdateShippingMethod",
            Method::DeleteShippingMethod => "DeleteShippingMethod",
            Method::CreateUserRole => "CreateUserRole",
            Method::GetUserRole => "GetUserRole",
            Method::UpdateUserRole => "UpdateUserRole",
            Method::DeleteUserRole => "DeleteUserRole",
            Method::CreateUserRolesMapping => "CreateUserRolesMapping",
            Method::GetUserRolesMapping => "GetUserRolesMapping",
            Method::UpdateUserRolesMapping => "UpdateUserRolesMapping",
            Method::DeleteUserRolesMapping => "DeleteUserRolesMapping",
            Method::CreateTransaction => "CreateTransaction",
            Method::GetTransaction => "GetTransaction",
            Method::UpdateTransaction => "UpdateTransaction",
            Method::DeleteTransaction => "DeleteTransaction",
            Method::CreateNewsletterSubscriber => "CreateNewsletterSubscriber",
            Method::GetNewsletterSubscriber => "GetNewsletterSubscriber",
            Method::UpdateNewsletterSubscriber => "UpdateNewsletterSubscriber",
            Method::DeleteNewsletterSubscriber => "DeleteNewsletterSubscriber",
            Method::CreateProductRating => "CreateProductRating",
            Method::GetProductRating => "GetProductRating",
            Method::UpdateProductRating => "UpdateProductRating",
            Method::DeleteProductRating => "DeleteProductRating",
            Method::CreateSize => "CreateSize",
            Method::GetSize => "GetSize",
            Method::UpdateSize => "UpdateSize",
            Method::DeleteSize => "DeleteSize",
            Method::CreateColor => "CreateColor",
            Method::GetColor => "GetColor",
            Method::UpdateColor => "UpdateColor",
            Method::DeleteColor => "DeleteColor",
            Method::CreateProductCategoryMapping => "CreateProductCategoryMapping",
            Method::GetProductCategoryMapping => "GetProductCategoryMapping",
            Method::DeleteProductCategoryMapping => "DeleteProductCategoryMapping",
            Method::CreateProductAttributeMapping => "CreateProductAttributeMapping",
            Method::GetProductAttributeMapping => "GetProductAttributeMapping",
            Method::DeleteProductAttributeMapping => "DeleteProductAttributeMapping",
            Method::CreateUserRoleMapping => "CreateUserRoleMapping",
            Method::GetUserRoleMapping => "GetUserRoleMapping",
            Method::DeleteUserRoleMapping => "DeleteUserRoleMapping",
            Method::CreateProductSizeMapping => "CreateProductSizeMapping",
            Method::GetProductSizeMapping => "GetProductSizeMapping",
            Method::DeleteProductSizeMapping => "DeleteProductSizeMapping",
            Method::CreateProductColorMapping => "CreateProductColorMapping",
            Method::GetProductColorMapping => "GetProductColorMapping",
            Method::DeleteProductColorMapping => "DeleteProductColorMapping",
            Method::CreateProductVariant => "CreateProductVariant",
            Method::GetProductVariant => "GetProductVariant",
            Method::UpdateProductVariant => "UpdateProductVariant",
            Method::DeleteProductVariant => "DeleteProductVariant",
            Method::CreateEventLog => "CreateEventLog",
            Method::GetEventLog => "GetEventLog",
            Method::UpdateEventLog => "UpdateEventLog",
            Method::DeleteEventLog => "DeleteEventLog",
            Method::CreateUserActivity => "CreateUserActivity",
            Method::GetUserActivity => "GetUserActivity",
            Method::UpdateUserActivity => "UpdateUserActivity",
            Method::DeleteUserActivity => "DeleteUserActivity",
            Method::CreateInventoryLog => "CreateInventoryLog",
            Method::GetInventoryLog => "GetInventoryLog",
            Method::UpdateInventoryLog => "UpdateInventoryLog",
            Method::DeleteInventoryLog => "DeleteInventoryLog",
            Method::CreatePromotion => "CreatePromotion",
            Method::GetPromotion => "GetPromotion",
            Method::UpdatePromotion => "UpdatePromotion",
            Method::DeletePromotion => "DeletePromotion",
            Method::CreateShippingZone => "CreateShippingZone",
            Method::GetShippingZone => "GetShippingZone",
            Method::UpdateShippingZone => "UpdateShippingZone",
            Method::DeleteShippingZone => "DeleteShippingZone",
            Method::CreatePaymentMethod => "CreatePaymentMethod",
            Method::GetPaymentMethod => "GetPaymentMethod",
            Method::UpdatePaymentMethod => "UpdatePaymentMethod",
            Method::DeletePaymentMethod => "DeletePaymentMethod",
        }
    }

    /// The request path of the method: `/`, the service name, `/`, the method name.
    pub fn path(&self) -> (r: &'static str)
        ensures
            r@ == spec_method_path(*self),
    {
        match self {
            Method::CreateCartItem => "/grpc_services.GRPCServices/CreateCartItem",
            Method::GetCartItems => "/grpc_services.GRPCServices/GetCartItems",
            Method::UpdateCartItem => "/grpc_services.GRPCServices/UpdateCartItem",
            Method::DeleteCartItem => "/grpc_services.GRPCServices/DeleteCartItem",
            Method::CreateProduct => "/grpc_services.GRPCServices/CreateProduct",
            Method::SearchProduct => "/grpc_services.GRPCServices/SearchProduct",
            Method::UpdateProduct => "/grpc_services.GRPCServices/UpdateProduct",
            Method::DeleteProduct => "/grpc_services.GRPCServices/DeleteProduct",
            Method::CreateUser => "/grpc_services.GRPCServices/CreateUser",
            Method::GetUser => "/grpc_services.GRPCServices/GetUser",
            Method::UpdateUser => "/grpc_services.GRPCServices/UpdateUser",
            Method::DeleteUser => "/grpc_services.GRPCServices/DeleteUser",
            Method::CreateCategory => "/grpc_services.GRPCServices/CreateCategory",
            Method::GetCategory => "/grpc_services.GRPCServices/GetCategory",
            Method::UpdateCategory => "/grpc_services.GRPCServices/UpdateCategory",
            Method::DeleteCategory => "/grpc_services.GRPCServices/DeleteCategory",
            Method::CreateOrder => "/grpc_services.GRPCServices/CreateOrder",
            Method::GetOrder => "/grpc_services.GRPCServices/GetOrder",
            Method::UpdateOrder => "/grpc_services.GRPCServices/UpdateOrder",
            Method::DeleteOrder => "/grpc_services.GRPCServices/DeleteOrder",
            Method::CreateOrderDetail => "/grpc_services.GRPCServices/CreateOrderDetail",
            Method::GetOrderDetail => "/grpc_services.GRPCServices/GetOrderDetail",
            Method::UpdateOrderDetail => "/grpc_services.GRPCServices/UpdateOrderDetail",
            Method::DeleteOrderDetail => "/grpc_services.GRPCServices/DeleteOrderDetail",
            Method::CreateReview => "/grpc_services.GRPCServices/CreateReview",
            Method::GetReview => "/grpc_services.GRPCServices/GetReview",
            Method::UpdateReview => "/grpc_services.GRPCServices/UpdateReview",
            Method::DeleteReview => "/grpc_services.GRPCServices/DeleteReview",
            Method::CreateProductImage => "/grpc_services.GRPCServices/CreateProductImage",
            Method::GetProductImage => "/grpc_services.GRPCServices/GetProductImage",
            Method::UpdateProductImage => "/grpc_services.GRPCServices/UpdateProductImage",
            Method::DeleteProductImage => "/grpc_services.GRPCServices/DeleteProductImage",
            Method::CreateSupplier => "/grpc_services.GRPCServices/CreateSupplier",
            Method::GetSupplier => "/grpc_services.GRPCServices/GetSupplier",
            Method::UpdateSupplier => "/grpc_services.GRPCServices/UpdateSupplier",
            Method::DeleteSupplier => "/grpc_services.GRPCServices/DeleteSupplier",
            Method::CreateInventoryItem => "/grpc_services.GRPCServices/CreateInventoryItem",
            Method::GetInventoryItem => "/grpc_services.GRPCServices/GetInventoryItem",
            Method::UpdateInventoryItem => "/grpc_services.GRPCServices/UpdateInventoryItem",
            Method::DeleteInventoryItem => "/grpc_services.GRPCServices/DeleteInventoryItem",
            Method::CreateWishlistItem => "/grpc_services.GRPCServices/CreateWishlistItem",
            Method::GetWishlistItem => "/grpc_services.GRPCServices/GetWishlistItem",
            Method::UpdateWishlistItem => "/grpc_services.GRPCServices/UpdateWishlistItem",
            Method::DeleteWishlistItem => "/grpc_services.GRPCServices/DeleteWishlistItem",
            Method::CreateProductAttribute => "/grpc_services.GRPCServices/CreateProductAttribute",
            Method::GetProductAttribute => "/grpc_services.GRPCServices/GetProductAttribute",
            Method::UpdateProductAttribute => "/grpc_services.GRPCServices/UpdateProductAttribute",
            Method::DeleteProductAttribute => "/grpc_services.GRPCServices/DeleteProductAttribute",
            Method::CreateDiscount => "/grpc_services.GRPCServices/CreateDiscount",
            Method::GetDiscount => "/grpc_services.GRPCServices/GetDiscount",
            Method::UpdateDiscount => "/grpc_services.GRPCServices/UpdateDiscount",
            Method::DeleteDiscount => "/grpc_services.GRPCServices/DeleteDiscount",
            Method::CreateShippingMethod => "/grpc_services.GRPCServices/CreateShippingMethod",
            Method::GetShippingMethod => "/grpc_services.GRPCServices/GetShippingMethod",
            Method::UpdateShippingMethod => "/grpc_services.GRPCServices/UpdateShippingMethod",
            Method::DeleteShippingMethod => "/grpc_services.GRPCServices/DeleteShippingMethod",
            Method::CreateUserRole => "/grpc_services.GRPCServices/CreateUserRole",
            Method::GetUserRole => "/grpc_services.GRPCServices/GetUserRole",
            Method::UpdateUserRole => "/grpc_services.GRPCServices/UpdateUserRole",
            Method::DeleteUserRole => "/grpc_services.GRPCServices/DeleteUserRole",
            Method::CreateUserRolesMapping => "/grpc_services.GRPCServices/CreateUserRolesMapping",
            Method::GetUserRolesMapping => "/grpc_services.GRPCServices/GetUserRolesMapping",
            Method::UpdateUserRolesMapping => "/grpc_services.GRPCServices/UpdateUserRolesMapping",
            Method::DeleteUserRolesMapping => "/grpc_services.GRPCServices/DeleteUserRolesMapping",
            Method::CreateTransaction => "/grpc_services.GRPCServices/CreateTransaction",
            Method::GetTransaction => "/grpc_services.GRPCServices/GetTransaction",
            Method::UpdateTransaction => "/grpc_services.GRPCServices/UpdateTransaction",
            Method::DeleteTransaction => "/grpc_services.GRPCServices/DeleteTransaction",
            Method::CreateNewsletterSubscriber => "/grpc_services.GRPCServices/CreateNewsletterSubscriber",
            Method::GetNewsletterSubscriber => "/grpc_services.GRPCServices/GetNewsletterSubscriber",
            Method::UpdateNewsletterSubscriber => "/grpc_services.GRPCServices/UpdateNewsletterSubscriber",
            Method::DeleteNewsletterSubscriber => "/grpc_services.GRPCServices/DeleteNewsletterSubscriber",
            Method::CreateProductRating => "/grpc_services.GRPCServices/CreateProductRating",
            Method::GetProductRating => "/grpc_services.GRPCServices/GetProductRating",
            Method::UpdateProductRating => "/grpc_services.GRPCServices/UpdateProductRating",
            Method::DeleteProductRating => "/grpc_services.GRPCServices/DeleteProductRating",
            Method::CreateSize => "/grpc_services.GRPCServices/CreateSize",
            Method::GetSize => "/grpc_services.GRPCServices/GetSize",
            Method::UpdateSize => "/grpc_services.GRPCServices/UpdateSize",
            Method::DeleteSize => "/grpc_services.GRPCServices/DeleteSize",
            Method::CreateColor => "/grpc_services.GRPCServices/CreateColor",
            Method::GetColor => "/grpc_services.GRPCServices/GetColor",
            Method::UpdateColor => "/grpc_services.GRPCServices/UpdateColor",
            Method::DeleteColor => "/grpc_services.GRPCServices/DeleteColor",
            Method::CreateProductCategoryMapping => "/grpc_services.GRPCServices/CreateProductCategoryMapping",
            Method::GetProductCategoryMapping => "/grpc_services.GRPCServices/GetProductCategoryMapping",
            Method::DeleteProductCategoryMapping => "/grpc_services.GRPCServices/DeleteProductCategoryMapping",
            Method::CreateProductAttributeMapping => "/grpc_services.GRPCServices/CreateProductAttributeMapping",
            Method::GetProductAttributeMapping => "/grpc_services.GRPCServices/GetProductAttributeMapping",
            Method::DeleteProductAttributeMapping => "/grpc_services.GRPCServices/DeleteProductAttributeMapping",
            Method::CreateUserRoleMapping => "/grpc_services.GRPCServices/CreateUserRoleMapping",
            Method::GetUserRoleMapping => "/grpc_services.GRPCServices/GetUserRoleMapping",
            Method::DeleteUserRoleMapping => "/grpc_services.GRPCServices/DeleteUserRoleMapping",
            Method::CreateProductSizeMapping => "/grpc_services.GRPCServices/CreateProductSizeMapping",
            Method::GetProductSizeMapping => "/grpc_services.GRPCServices/GetProductSizeMapping",
            Method::DeleteProductSizeMapping => "/grpc_services.GRPCServices/DeleteProductSizeMapping",
            Method::CreateProductColorMapping => "/grpc_services.GRPCServices/CreateProductColorMapping",
            Method::GetProductColorMapping => "/grpc_services.GRPCServices/GetProductColorMapping",
            Method::DeleteProductColorMapping => "/grpc_services.GRPCServices/DeleteProductColorMapping",
            Method::CreateProductVariant => "/grpc_services.GRPCServices/CreateProductVariant",
            Method::GetProductVariant => "/grpc_services.GRPCServices/GetProductVariant",
            Method::UpdateProductVariant => "/grpc_services.GRPCServices/UpdateProductVariant",
            Method::DeleteProductVariant => "/grpc_services.GRPCServices/DeleteProductVariant",
            Method::CreateEventLog => "/grpc_services.GRPCServices/CreateEventLog",
            Method::GetEventLog => "/grpc_services.GRPCServices/GetEventLog",
            Method::UpdateEventLog => "/grpc_services.GRPCServices/UpdateEventLog",
            Method::DeleteEventLog => "/grpc_services.GRPCServices/DeleteEventLog",
            Method::CreateUserActivity => "/grpc_services.GRPCServices/CreateUserActivity",
            Method::GetUserActivity => "/grpc_services.GRPCServices/GetUserActivity",
            Method::UpdateUserActivity => "/grpc_services.GRPCServices/UpdateUserActivity",
            Method::DeleteUserActivity => "/grpc_services.GRPCServices/DeleteUserActivity",
            Method::CreateInventoryLog => "/grpc_services.GRPCServices/CreateInventoryLog",
            Method::GetInventoryLog => "/grpc_services.GRPCServices/GetInventoryLog",
            Method::UpdateInventoryLog => "/grpc_services.GRPCServices/UpdateInventoryLog",
            Method::DeleteInventoryLog => "/grpc_services.GRPCServices/DeleteInventoryLog",
            Method::CreatePromotion => "/grpc_services.GRPCServices/CreatePromotion",
            Method::GetPromotion => "/grpc_services.GRPCServices/GetPromotion",
            Method::UpdatePromotion => "/grpc_services.GRPCServices/UpdatePromotion",
            Method::DeletePromotion => "/grpc_services.GRPCServices/DeletePromotion",
            Method::CreateShippingZone => "/grpc_services.GRPCServices/CreateShippingZone",
            Method::GetShippingZone => "/grpc_services.GRPCServices/GetShippingZone",
            Method::UpdateShippingZone => "/grpc_services.GRPCServices/UpdateShippingZone",
            Method::DeleteShippingZone => "/grpc_services.GRPCServices/DeleteShippingZone",
            Method::CreatePaymentMethod => "/grpc_services.GRPCServices/CreatePaymentMethod",
            Method::GetPaymentMethod => "/grpc_services.GRPCServices/GetPaymentMethod",
            Method::UpdatePaymentMethod => "/grpc_services.GRPCServices/UpdatePaymentMethod",
            Method::DeletePaymentMethod => "/grpc_services.GRPCServices/DeletePaymentMethod",
        }
    }
}

/// The methods, in the order in which the service declares them.
pub fn methods() -> (r: Vec<Method>)
    ensures
        r@ == spec_methods(),
{
    vec![
            Method::CreateCartItem,
            Method::GetCartItems,
            Method::UpdateCartItem,
            Method::DeleteCartItem,
            Method::CreateProduct,
            Method::SearchProduct,
            Method::UpdateProduct,
            Method::DeleteProduct,
            Method::CreateUser,
            Method::GetUser,
            Method::UpdateUser,
            Method::DeleteUser,
            Method::CreateCategory,
            Method::GetCategory,
            Method::UpdateCategory,
            Method::DeleteCategory,
            Method::CreateOrder,
            Method::GetOrder,
            Method::UpdateOrder,
            Method::DeleteOrder,
            Method::CreateOrderDetail,
            Method::GetOrderDetail,
            Method::UpdateOrderDetail,
            Method::DeleteOrderDetail,
            Method::CreateReview,
            Method::GetReview,
            Method::UpdateReview,
            Method::DeleteReview,
            Method::CreateProductImage,
            Method::GetProductImage,
            Method::UpdateProductImage,
            Method::DeleteProductImage,
            Method::CreateSupplier,
            Method::GetSupplier,
            Method::UpdateSupplier,
            Method::DeleteSupplier,
            Method::CreateInventoryItem,
            Method::GetInventoryItem,
            Method::UpdateInventoryItem,
            Method::DeleteInventoryItem,
            Method::CreateWishlistItem,
            Method::GetWishlistItem,
            Method::UpdateWishlistItem,
            Method::DeleteWishlistItem,
            Method::CreateProductAttribute,
            Method::GetProductAttribute,
            Method::UpdateProductAttribute,
            Method::DeleteProductAttribute,
            Method::CreateDiscount,
            Method::GetDiscount,
            Method::UpdateDiscount,
            Method::DeleteDiscount,
            Method::CreateShippingMethod,
            Method::GetShippingMethod,
            Method::UpdateShippingMethod,
            Method::DeleteShippingMethod,
            Method::CreateUserRole,
            Method::GetUserRole,
            Method::UpdateUserRole,
            Method::DeleteUserRole,
            Method::CreateUserRolesMapping,
            Method::GetUserRolesMapping,
            Method::UpdateUserRolesMapping,
            Method::DeleteUserRolesMapping,
            Method::CreateTransaction,
            Method::GetTransaction,
            Method::UpdateTransaction,
            Method::DeleteTransaction,
            Method::CreateNewsletterSubscriber,
            Method::GetNewsletterSubscriber,
            Method::UpdateNewsletterSubscriber,
            Method::DeleteNewsletterSubscriber,
            Method::CreateProductRating,
            Method::GetProductRating,
            Method::UpdateProductRating,
            Method::DeleteProductRating,
            Method::CreateSize,
            Method::GetSize,
            Method::UpdateSize,
            Method::DeleteSize,
            Method::CreateColor,
            Method::GetColor,
            Method::UpdateColor,
            Method::DeleteColor,
            Method::CreateProductCategoryMapping,
            Method::GetProductCategoryMapping,
            Method::DeleteProductCategoryMapping,
            Method::CreateProductAttributeMapping,
            Method::GetProductAttributeMapping,
            Method::DeleteProductAttributeMapping,
            Method::CreateUserRoleMapping,
            Method::GetUserRoleMapping,
            Method::DeleteUserRoleMapping,
            Method::CreateProductSizeMapping,
            Method::GetProductSizeMapping,
            Method::DeleteProductSizeMapping,
            Method::CreateProductColorMapping,
            Method::GetProductColorMapping,
            Method::DeleteProductColorMapping,
            Method::CreateProductVariant,
            Method::GetProductVariant,
            Method::UpdateProductVariant,
            Method::DeleteProductVariant,
            Method::CreateEventLog,
            Method::GetEventLog,
            Method::UpdateEventLog,
            Method::DeleteEventLog,
            Method::CreateUserActivity,
            Method::GetUserActivity,
            Method::UpdateUserActivity,
            Method::DeleteUserActivity,
            Method::CreateInventoryLog,
            Method::GetInventoryLog,
            Method::UpdateInventoryLog,
            Method::DeleteInventoryLog,
            Method::CreatePromotion,
            Method::GetPromotion,
            Method::UpdatePromotion,
            Method::DeletePromotion,
            Method::CreateShippingZone,
            Method::GetShippingZone,
            Method::UpdateShippingZone,
            Method::DeleteShippingZone,
            Method::CreatePaymentMethod,
            Method::GetPaymentMethod,
            Method::UpdatePaymentMethod,
            Method::DeletePaymentMethod,
        ]
}

/// The method that a request path of this service names, told apart by the
/// path's length and three of its characters.
pub open spec fn method_at(p: Seq<char>) -> Option<Method> {
    if p.len() == 42 && p[28] == 'C' && p[32] == 't' && p[37] == 't' {
            Some(Method::CreateCartItem)
        } else if p.len() == 40 && p[28] == 'G' && p[32] == 'a' && p[37] == 'e' {
            Some(Method::GetCartItems)
        } else if p.len() == 42 && p[28] == 'U' && p[32] == 't' && p[37] == 't' {
            Some(Method::UpdateCartItem)
        } else if p.len() == 42 && p[28] == 'D' && p[32] == 't' && p[37] == 't' {
            Some(Method::DeleteCartItem)
        } else if p.len() == 41 && p[28] == 'C' && p[32] == 't' && p[37] == 'd' {
            Some(Method::CreateProduct)
        } else if p.len() == 41 && p[28] == 'S' && p[32] == 'c' && p[37] == 'd' {
            Some(Method::SearchProduct)
        } else if p.len() == 41 && p[28] == 'U' && p[32] == 't' && p[37] == 'd' {
            Some(Method::UpdateProduct)
        } else if p.len() == 41 && p[28] == 'D' && p[32] == 't' && p[37] == 'd' {
            Some(Method::DeleteProduct)
        } else if p.len() == 38 && p[28] == 'C' && p[32] == 't' && p[37] == 'r' {
            Some(Method::CreateUser)
        } else if p.len() == 35 && p[28] == 'G' && p[32] == 's' {
            Some(Method::GetUser)
        } else if p.len() == 38 && p[28] == 'U' && p[32] == 't' && p[37] == 'r' {
            Some(Method::UpdateUser)
        } else if p.len() == 38 && p[28] == 'D' && p[32] == 't' && p[37] == 'r' {
            Some(Method::DeleteUser)
        } else if p.len() == 42 && p[28] == 'C' && p[32] == 't' && p[37] == 'e' {
            Some(Method::CreateCategory)
        } else if p.len() == 39 && p[28] == 'G' && p[32] == 'a' && p[37] == 'r' {
            Some(Method::GetCategory)
        } else if p.len() == 42 && p[28] == 'U' && p[32] == 't' && p[37] == 'e' {
            Some(Method::UpdateCategory)
        } else if p.len() == 42 && p[28] == 'D' && p[32] == 't' && p[37] == 'e' {
            Some(Method::DeleteCategory)
        } else if p.len() == 39 && p[28] == 'C' && p[32] == 't' && p[37] == 'e' {
            Some(Method::CreateOrder)
        } else if p.len() == 36 && p[28] == 'G' && p[32] == 'r' {
            Some(Method::GetOrder)
        } else if p.len() == 39 && p[28] == 'U' && p[32] == 't' && p[37] == 'e' {
            Some(Method::UpdateOrder)
        } else if p.len() == 39 && p[28] == 'D' && p[32] == 't' && p[37] == 'e' {
            Some(Method::DeleteOrder)
        } else if p.len() == 45 && p[28] == 'C' && p[32] == 't' && p[37] == 'e' {
            Some(Method::CreateOrderDetail)
        } else if p.len() == 42 && p[28] == 'G' && p[32] == 'r' && p[37] == 'e' {
            Some(Method::GetOrderDetail)
        } else if p.len() == 45 && p[28] == 'U' && p[32] == 't' && p[37] == 'e' {
            Some(Method::UpdateOrderDetail)
        } else if p.len() == 45 && p[28] == 'D' && p[32] == 't' && p[37] == 'e' {
            Some(Method::DeleteOrderDetail)
        } else if p.len() == 40 && p[28] == 'C' && p[32] == 't' && p[37] == 'i' {
            Some(Method::CreateReview)
        } else if p.len() == 37 && p[28] == 'G' && p[32] == 'e' {
            Some(Method::GetReview)
        } else if p.len() == 40 && p[28] == 'U' && p[32] == 't' && p[37] == 'i' {
            Some(Method::UpdateReview)
        } else if p.len() == 40 && p[28] == 'D' && p[32] == 't' && p[37] == 'i' {
            Some(Method::DeleteReview)
        } else if p.len() == 46 && p[28] == 'C' && p[32] == 't' && p[37] == 'd' {
            Some(Method::CreateProductImage)
        } else if p.len() == 43 && p[28] == 'G' && p[32] == 'r' && p[37] == 't' {
            Some(Method::GetProductImage)
        } else if p.len() == 46 && p[28] == 'U' && p[32] == 't' && p[37] == 'd' {
            Some(Method::UpdateProductImage)
        } else if p.len() == 46 && p[28] == 'D' && p[32] == 't' && p[37] == 'd' {
            Some(Method::DeleteProductImage)
        } else if p.len() == 42 && p[28] == 'C' && p[32] == 't' && p[37] == 'p' {
            Some(Method::CreateSupplier)
        } else if p.len() == 39 && p[28] == 'G' && p[32] == 'u' && p[37] == 'e' {
            Some(Method::GetSupplier)
        } else if p.len() == 42 && p[28] == 'U' && p[32] == 't' && p[37] == 'p' {
            Some(Method::UpdateSupplier)
        } else if p.len() == 42 && p[28] == 'D' && p[32] == 't' && p[37] == 'p' {
            Some(Method::DeleteSupplier)
        } else if p.len() == 47 && p[28] == 'C' && p[32] == 't' && p[37] == 'e' {
            Some(Method::CreateInventoryItem)
        } else if p.len() == 44 && p[28] == 'G' && p[32] == 'n' && p[37] == 'o' {
            Some(Method::GetInventoryItem)
        } else if p.len() == 47 && p[28] == 'U' && p[32] == 't' && p[37] == 'e' {
            Some(Method::UpdateInventoryItem)
        } else if p.len() == 47 && p[28] == 'D' && p[32] == 't' && p[37] == 'e' {
            Some(Method::DeleteInventoryItem)
        } else if p.len() == 46 && p[28] == 'C' && p[32] == 't' && p[37] == 'h' {
            Some(Method::CreateWishlistItem)
        } else if p.len() == 43 && p[28] == 'G' && p[32] == 'i' && p[37] == 's' {
            Some(Method::GetWishlistItem)
        } else if p.len() == 46 && p[28] == 'U' && p[32] == 't' && p[37] == 'h' {
            Some(Method::UpdateWishlistItem)
        } else if p.len() == 46 && p[28] == 'D' && p[32] == 't' && p[37] == 'h' {
            Some(Method::DeleteWishlistItem)
        } else if p.len() == 50 && p[28] == 'C' && p[32] == 't' && p[37] == 'd' {
            Some(Method::CreateProductAttribute)
        } else if p.len() == 47 && p[28] == 'G' && p[32] == 'r' && p[37] == 't' {
            Some(Method::GetProductAttribute)
        } else if p.len() == 50 && p[28] == 'U' && p[32] == 't' && p[37] == 'd' {
            Some(Method::UpdateProductAttribute)
        } else if p.len() == 50 && p[28] == 'D' && p[32] == 't' && p[37] == 'd' {
            Some(Method::DeleteProductAttribute)
        } else if p.len() == 42 && p[28] == 'C' && p[32] == 't' && p[37] == 'c' {
            Some(Method::CreateDiscount)
        } else if p.len() == 39 && p[28] == 'G' && p[32] == 'i' && p[37] == 'n' {
            Some(Method::GetDiscount)
        } else if p.len() == 42 && p[28] == 'U' && p[32] == 't' && p[37] == 'c' {
            Some(Method::UpdateDiscount)
        } else if p.len() == 42 && p[28] == 'D' && p[32] == 't' && p[37] == 'c' {
            Some(Method::DeleteDiscount)
        } else if p.len() == 48 && p[28] == 'C' && p[32] == 't' && p[37] == 'p' {
            Some(Method::CreateShippingMethod)
        } else if p.len() == 45 && p[28] == 'G' && p[32] == 'h' && p[37] == 'n' {
            Some(Method::GetShippingMethod)
        } else if p.len() == 48 && p[28] == 'U' && p[32] == 't' && p[37] == 'p' {
            Some(Method::UpdateShippingMethod)
        } else if p.len() == 48 && p[28] == 'D' && p[32] == 't' && p[37] == 'p' {
            Some(Method::DeleteShippingMethod)
        } else if p.len() == 42 && p[28] == 'C' && p[32] == 't' && p[37] == 'r' {
            Some(Method::CreateUserRole)
        } else if p.len() == 39 && p[28] == 'G' && p[32] == 's' && p[37] == 'l' {
            Some(Method::GetUserRole)
        } else if p.len() == 42 && p[28] == 'U' && p[32] == 't' && p[37] == 'r' {
            Some(Method::UpdateUserRole)
        } else if p.len() == 42 && p[28] == 'D' && p[32] == 't' && p[37] == 'r' {
            Some(Method::DeleteUserRole)
        } else if p.len() == 50 && p[28] == 'C' && p[32] == 't' && p[37] == 'r' {
            Some(Method::CreateUserRolesMapping)
        } else if p.len() == 47 && p[28] == 'G' && p[32] == 's' && p[37] == 'l' {
            Some(Method::GetUserRolesMapping)
        } else if p.len() == 50 && p[28] == 'U' && p[32] == 't' && p[37] == 'r' {
            Some(Method::UpdateUserRolesMapping)
        } else if p.len() == 50 && p[28] == 'D' && p[32] == 't' && p[37] == 'r' {
            Some(Method::DeleteUserRolesMapping)
        } else if p.len() == 45 && p[28] == 'C' && p[32] == 't' && p[37] == 'n' {
            Some(Method::CreateTransaction)
        } else if p.len() == 42 && p[28] == 'G' && p[32] == 'r' && p[37] == 'c' {
            Some(Method::GetTransaction)
        } else if p.len() == 45 && p[28] == 'U' && p[32] == 't' && p[37] == 'n' {
            Some(Method::UpdateTransaction)
        } else if p.len() == 45 && p[28] == 'D' && p[32] == 't' && p[37] == 'n' {
            Some(Method::DeleteTransaction)
        } else if p.len() == 54 && p[28] == 'C' && p[32] == 't' && p[37] == 's' {
            Some(Method::CreateNewsletterSubscriber)
        } else if p.len() == 51 && p[28] == 'G' && p[32] == 'e' && p[37] == 't' {
            Some(Method::GetNewsletterSubscriber)
        } else if p.len() == 54 && p[28] == 'U' && p[32] == 't' && p[37] == 's' {
            Some(Method::UpdateNewsletterSubscriber)
        } else if p.len() == 54 && p[28] == 'D' && p[32] == 't' && p[37] == 's' {
            Some(Method::DeleteNewsletterSubscriber)
        } else if p.len() == 47 && p[28] == 'C' && p[32] == 't' && p[37] == 'd' {
            Some(Method::CreateProductRating)
        } else if p.len() == 44 && p[28] == 'G' && p[32] == 'r' && p[37] == 't' {
            Some(Method::GetProductRating)
        } else if p.len() == 47 && p[28] == 'U' && p[32] == 't' && p[37] == 'd' {
            Some(Method::UpdateProductRating)
        } else if p.len() == 47 && p[28] == 'D' && p[32] == 't' && p[37] == 'd' {
            Some(Method::DeleteProductRating)
        } else if p.len() == 38 && p[28] == 'C' && p[32] == 't' && p[37] == 'e' {
            Some(Method::CreateSize)
        } else if p.len() == 35 && p[28] == 'G' && p[32] == 'i' {
            Some(Method::GetSize)
        } else if p.len() == 38 && p[28] == 'U' && p[32] == 't' && p[37] == 'e' {
            Some(Method::UpdateSize)
        } else if p.len() == 38 && p[28] == 'D' && p[32] == 't' && p[37] == 'e' {
            Some(Method::DeleteSize)
        } else if p.len() == 39 && p[28] == 'C' && p[32] == 't' && p[37] == 'o' {
            Some(Method::CreateColor)
        } else if p.len() == 36 && p[28] == 'G' && p[32] == 'o' {
            Some(Method::GetColor)
        } else if p.len() == 39 && p[28] == 'U' && p[32] == 't' && p[37] == 'o' {
            Some(Method::UpdateColor)
        } else if p.len() == 39 && p[28] == 'D' && p[32] == 't' && p[37] == 'o' {
            Some(Method::DeleteColor)
        } else if p.len() == 56 && p[28] == 'C' && p[32] == 't' && p[37] == 'd' {
            Some(Method::CreateProductCategoryMapping)
        } else if p.len() == 53 && p[28] == 'G' && p[32] == 'r' && p[37] == 't' {
            Some(Method::GetProductCategoryMapping)
        } else if p.len() == 56 && p[28] == 'D' && p[32] == 't' && p[37] == 'd' {
            Some(Method::DeleteProductCategoryMapping)
        } else if p.len() == 57 && p[28] == 'C' && p[32] == 't' && p[37] == 'd' {
            Some(Method::CreateProductAttributeMapping)
        } else if p.len() == 54 && p[28] == 'G' && p[32] == 'r' && p[37] == 't' {
            Some(Method::GetProductAttributeMapping)
        } else if p.len() == 57 && p[28] == 'D' && p[32] == 't' && p[37] == 'd' {
            Some(Method::DeleteProductAttributeMapping)
        } else if p.len() == 49 && p[28] == 'C' && p[32] == 't' && p[37] == 'r' {
            Some(Method::CreateUserRoleMapping)
        } else if p.len() == 46 && p[28] == 'G' && p[32] == 's' && p[37] == 'l' {
            Some(Method::GetUserRoleMapping)
        } else if p.len() == 49 && p[28] == 'D' && p[32] == 't' && p[37] == 'r' {
            Some(Method::DeleteUserRoleMapping)
        } else if p.len() == 52 && p[28] == 'C' && p[32] == 't' && p[37] == 'd' {
            Some(Method::CreateProductSizeMapping)
        } else if p.len() == 49 && p[28] == 'G' && p[32] == 'r' && p[37] == 't' {
            Some(Method::GetProductSizeMapping)
        } else if p.len() == 52 && p[28] == 'D' && p[32] == 't' && p[37] == 'd' {
            Some(Method::DeleteProductSizeMapping)
        } else if p.len() == 53 && p[28] == 'C' && p[32] == 't' && p[37] == 'd' {
            Some(Method::CreateProductColorMapping)
        } else if p.len() == 50 && p[28] == 'G' && p[32] == 'r' && p[37] == 't' {
            Some(Method::GetProductColorMapping)
        } else if p.len() == 53 && p[28] == 'D' && p[32] == 't' && p[37] == 'd' {
            Some(Method::DeleteProductColorMapping)
        } else if p.len() == 48 && p[28] == 'C' && p[32] == 't' && p[37] == 'd' {
            Some(Method::CreateProductVariant)
        } else if p.len() == 45 && p[28] == 'G' && p[32] == 'r' && p[37] == 't' {
            Some(Method::GetProductVariant)
        } else if p.len() == 48 && p[28] == 'U' && p[32] == 't' && p[37] == 'd' {
            Some(Method::UpdateProductVariant)
        } else if p.len() == 48 && p[28] == 'D' && p[32] == 't' && p[37] == 'd' {
            Some(Method::DeleteProductVariant)
        } else if p.len() == 42 && p[28] == 'C' && p[32] == 't' && p[37] == 'n' {
            Some(Method::CreateEventLog)
        } else if p.len() == 39 && p[28] == 'G' && p[32] == 'v' && p[37] == 'o' {
            Some(Method::GetEventLog)
        } else if p.len() == 42 && p[28] == 'U' && p[32] == 't' && p[37] == 'n' {
            Some(Method::UpdateEventLog)
        } else if p.len() == 42 && p[28] == 'D' && p[32] == 't' && p[37] == 'n' {
            Some(Method::DeleteEventLog)
        } else if p.len() == 46 && p[28] == 'C' && p[32] == 't' && p[37] == 'r' {
            Some(Method::CreateUserActivity)
        } else if p.len() == 43 && p[28] == 'G' && p[32] == 's' && p[37] == 't' {
            Some(Method::GetUserActivity)
        } else if p.len() == 46 && p[28] == 'U' && p[32] == 't' && p[37] == 'r' {
            Some(Method::UpdateUserActivity)
        } else if p.len() == 46 && p[28] == 'D' && p[32] == 't' && p[37] == 'r' {
            Some(Method::DeleteUserActivity)
        } else if p.len() == 46 && p[28] == 'C' && p[32] == 't' && p[37] == 'e' {
            Some(Method::CreateInventoryLog)
        } else if p.len() == 43 && p[28] == 'G' && p[32] == 'n' && p[37] == 'o' {
            Some(Method::GetInventoryLog)
        } else if p.len() == 46 && p[28] == 'U' && p[32] == 't' && p[37] == 'e' {
            Some(Method::UpdateInventoryLog)
        } else if p.len() == 46 && p[28] == 'D' && p[32] == 't' && p[37] == 'e' {
            Some(Method::DeleteInventoryLog)
        } else if p.len() == 43 && p[28] == 'C' && p[32] == 't' && p[37] == 'm' {
            Some(Method::CreatePromotion)
        } else if p.len() == 40 && p[28] == 'G' && p[32] == 'r' && p[37] == 'i' {
            Some(Method::GetPromotion)
        } else if p.len() == 43 && p[28] == 'U' && p[32] == 't' && p[37] == 'm' {
            Some(Method::UpdatePromotion)
        } else if p.len() == 43 && p[28] == 'D' && p[32] == 't' && p[37] == 'm' {
            Some(Method::DeletePromotion)
        } else if p.len() == 46 && p[28] == 'C' && p[32] == 't' && p[37] == 'p' {
            Some(Method::CreateShippingZone)
        } else if p.len() == 43 && p[28] == 'G' && p[32] == 'h' && p[37] == 'n' {
            Some(Method::GetShippingZone)
        } else if p.len() == 46 && p[28] == 'U' && p[32] == 't' && p[37] == 'p' {
            Some(Method::UpdateShippingZone)
        } else if p.len() == 46 && p[28] == 'D' && p[32] == 't' && p[37] == 'p' {
            Some(Method::DeleteShippingZone)
        } else if p.len() == 47 && p[28] == 'C' && p[32] == 't' && p[37] == 'm' {
            Some(Method::CreatePaymentMethod)
        } else if p.len() == 44 && p[28] == 'G' && p[32] == 'a' && p[37] == 't' {
            Some(Method::GetPaymentMethod)
        } else if p.len() == 47 && p[28] == 'U' && p[32] == 't' && p[37] == 'm' {
            Some(Method::UpdatePaymentMethod)
        } else if p.len() == 47 && p[28] == 'D' && p[32] == 't' && p[37] == 'm' {
            Some(Method::DeletePaymentMethod)
        } else {
        None
    }
}

proof fn lemma_method_at(m: Method)
    ensures
        method_at(spec_method_path(m)) == Some(m),
{
    match m {
            Method::CreateCartItem => {
                reveal_strlit("/grpc_services.GRPCServices/CreateCartItem");
            },
            Method::GetCartItems => {
                reveal_strlit("/grpc_services.GRPCServices/GetCartItems");
            },
            Method::UpdateCartItem => {
                reveal_strlit("/grpc_services.GRPCServices/UpdateCartItem");
            },
            Method::DeleteCartItem => {
                reveal_strlit("/grpc_services.GRPCServices/DeleteCartItem");
            },
            Method::CreateProduct => {
                reveal_strlit("/grpc_services.GRPCServices/CreateProduct");
            },
            Method::SearchProduct => {
                reveal_strlit("/grpc_services.GRPCServices/SearchProduct");
            },
            Method::UpdateProduct => {
                reveal_strlit("/grpc_services.GRPCServices/UpdateProduct");
            },
            Method::DeleteProduct => {
                reveal_strlit("/grpc_services.GRPCServices/DeleteProduct");
            },
            Method::CreateUser => {
                reveal_strlit("/grpc_services.GRPCServices/CreateUser");
            },
            Method::GetUser => {
                reveal_strlit("/grpc_services.GRPCServices/GetUser");
            },
            Method::UpdateUser => {
                reveal_strlit("/grpc_services.GRPCServices/UpdateUser");
            },
            Method::DeleteUser => {
                reveal_strlit("/grpc_services.GRPCServices/DeleteUser");
            },
            Method::CreateCategory => {
                reveal_strlit("/grpc_services.GRPCServices/CreateCategory");
            },
            Method::GetCategory => {
                reveal_strlit("/grpc_services.GRPCServices/GetCategory");
            },
            Method::UpdateCategory => {
                reveal_strlit("/grpc_services.GRPCServices/UpdateCategory");
            },
            Method::DeleteCategory => {
                reveal_strlit("/grpc_services.GRPCServices/DeleteCategory");
            },
            Method::CreateOrder => {
                reveal_strlit("/grpc_services.GRPCServices/CreateOrder");
            },
            Method::GetOrder => {
                reveal_strlit("/grpc_services.GRPCServices/GetOrder");
            },
            Method::UpdateOrder => {
                reveal_strlit("/grpc_services.GRPCServices/UpdateOrder");
            },
            Method::DeleteOrder => {
                reveal_strlit("/grpc_services.GRPCServices/DeleteOrder");
            },
            Method::CreateOrderDetail => {
                reveal_strlit("/grpc_services.GRPCServices/CreateOrderDetail");
            },
            Method::GetOrderDetail => {
                reveal_strlit("/grpc_services.GRPCServices/GetOrderDetail");
            },
            Method::UpdateOrderDetail => {
                reveal_strlit("/grpc_services.GRPCServices/UpdateOrderDetail");
            },
            Method::DeleteOrderDetail => {
                reveal_strlit("/grpc_services.GRPCServices/DeleteOrderDetail");
            },
            Method::CreateReview => {
                reveal_strlit("/grpc_services.GRPCServices/CreateReview");
            },
            Method::GetReview => {
                reveal_strlit("/grpc_services.GRPCServices/GetReview");
            },
            Method::UpdateReview => {
                reveal_strlit("/grpc_services.GRPCServices/UpdateReview");
            },
            Method::DeleteReview => {
                reveal_strlit("/grpc_services.GRPCServices/DeleteReview");
            },
            Method::CreateProductImage => {
                reveal_strlit("/grpc_services.GRPCServices/CreateProductImage");
            },
            Method::GetProductImage => {
                reveal_strlit("/grpc_services.GRPCServices/GetProductImage");
            },
            Method::UpdateProductImage => {
                reveal_strlit("/grpc_services.GRPCServices/UpdateProductImage");
            },
            Method::DeleteProductImage => {
                reveal_strlit("/grpc_services.GRPCServices/DeleteProductImage");
            },
            Method::CreateSupplier => {
                reveal_strlit("/grpc_services.GRPCServices/CreateSupplier");
            },
            Method::GetSupplier => {
                reveal_strlit("/grpc_services.GRPCServices/GetSupplier");
            },
            Method::UpdateSupplier => {
                reveal_strlit("/grpc_services.GRPCServices/UpdateSupplier");
            },
            Method::DeleteSupplier => {
                reveal_strlit("/grpc_services.GRPCServices/DeleteSupplier");
            },
            Method::CreateInventoryItem => {
                reveal_strlit("/grpc_services.GRPCServices/CreateInventoryItem");
            },
            Method::GetInventoryItem => {
                reveal_strlit("/grpc_services.GRPCServices/GetInventoryItem");
            },
            Method::UpdateInventoryItem => {
                reveal_strlit("/grpc_services.GRPCServices/UpdateInventoryItem");
            },
            Method::DeleteInventoryItem => {
                reveal_strlit("/grpc_services.GRPCServices/DeleteInventoryItem");
            },
            Method::CreateWishlistItem => {
                reveal_strlit("/grpc_services.GRPCServices/CreateWishlistItem");
            },
            Method::GetWishlistItem => {
                reveal_strlit("/grpc_services.GRPCServices/GetWishlistItem");
            },
            Method::UpdateWishlistItem => {
                reveal_strlit("/grpc_services.GRPCServices/UpdateWishlistItem");
            },
            Method::DeleteWishlistItem => {
                reveal_strlit("/grpc_services.GRPCServices/DeleteWishlistItem");
            },
            Method::CreateProductAttribute => {
                reveal_strlit("/grpc_services.GRPCServices/CreateProductAttribute");
            },
            Method::GetProductAttribute => {
                reveal_strlit("/grpc_services.GRPCServices/GetProductAttribute");
            },
            Method::UpdateProductAttribute => {
                reveal_strlit("/grpc_services.GRPCServices/UpdateProductAttribute");
            },
            Method::DeleteProductAttribute => {
                reveal_strlit("/grpc_services.GRPCServices/DeleteProductAttribute");
            },
            Method::CreateDiscount => {
                reveal_strlit("/grpc_services.GRPCServices/CreateDiscount");
            },
            Method::GetDiscount => {
                reveal_strlit("/grpc_services.GRPCServices/GetDiscount");
            },
            Method::UpdateDiscount => {
                reveal_strlit("/grpc_services.GRPCServices/UpdateDiscount");
            },
            Method::DeleteDiscount => {
                reveal_strlit("/grpc_services.GRPCServices/DeleteDiscount");
            },
            Method::CreateShippingMethod => {
                reveal_strlit("/grpc_services.GRPCServices/CreateShippingMethod");
            },
            Method::GetShippingMethod => {
                reveal_strlit("/grpc_services.GRPCServices/GetShippingMethod");
            },
            Method::UpdateShippingMethod => {
                reveal_strlit("/grpc_services.GRPCServices/UpdateShippingMethod");
            },
            Method::DeleteShippingMethod => {
                reveal_strlit("/grpc_services.GRPCServices/DeleteShippingMethod");
            },
            Method::CreateUserRole => {
                reveal_strlit("/grpc_services.GRPCServices/CreateUserRole");
            },
            Method::GetUserRole => {
                reveal_strlit("/grpc_services.GRPCServices/GetUserRole");
            },
            Method::UpdateUserRole => {
                reveal_strlit("/grpc_services.GRPCServices/UpdateUserRole");
            },
            Method::DeleteUserRole => {
                reveal_strlit("/grpc_services.GRPCServices/DeleteUserRole");
            },
            Method::CreateUserRolesMapping => {
                reveal_strlit("/grpc_services.GRPCServices/CreateUserRolesMapping");
            },
            Method::GetUserRolesMapping => {
                reveal_strlit("/grpc_services.GRPCServices/GetUserRolesMapping");
            },
            Method::UpdateUserRolesMapping => {
                reveal_strlit("/grpc_services.GRPCServices/UpdateUserRolesMapping");
            },
            Method::DeleteUserRolesMapping => {
                reveal_strlit("/grpc_services.GRPCServices/DeleteUserRolesMapping");
            },
            Method::CreateTransaction => {
                reveal_strlit("/grpc_services.GRPCServices/CreateTransaction");
            },
            Method::GetTransaction => {
                reveal_strlit("/grpc_services.GRPCServices/GetTransaction");
            },
            Method::UpdateTransaction => {
                reveal_strlit("/grpc_services.GRPCServices/UpdateTransaction");
            },
            Method::DeleteTransaction => {
                reveal_strlit("/grpc_services.GRPCServices/DeleteTransaction");
            },
            Method::CreateNewsletterSubscriber => {
                reveal_strlit("/grpc_services.GRPCServices/CreateNewsletterSubscriber");
            },
            Method::GetNewsletterSubscriber => {
                reveal_strlit("/grpc_services.GRPCServices/GetNewsletterSubscriber");
            },
            Method::UpdateNewsletterSubscriber => {
                reveal_strlit("/grpc_services.GRPCServices/UpdateNewsletterSubscriber");
            },
            Method::DeleteNewsletterSubscriber => {
                reveal_strlit("/grpc_services.GRPCServices/DeleteNewsletterSubscriber");
            },
            Method::CreateProductRating => {
                reveal_strlit("/grpc_services.GRPCServices/CreateProductRating");
            },
            Method::GetProductRating => {
                reveal_strlit("/grpc_services.GRPCServices/GetProductRating");
            },
            Method::UpdateProductRating => {
                reveal_strlit("/grpc_services.GRPCServices/UpdateProductRating");
            },
            Method::DeleteProductRating => {
                reveal_strlit("/grpc_services.GRPCServices/DeleteProductRating");
            },
            Method::CreateSize => {
                reveal_strlit("/grpc_services.GRPCServices/CreateSize");
            },
            Method::GetSize => {
                reveal_strlit("/grpc_services.GRPCServices/GetSize");
            },
            Method::UpdateSize => {
                reveal_strlit("/grpc_services.GRPCServices/UpdateSize");
            },
            Method::DeleteSize => {
                reveal_strlit("/grpc_services.GRPCServices/DeleteSize");
            },
            Method::CreateColor => {
                reveal_strlit("/grpc_services.GRPCServices/CreateColor");
            },
            Method::GetColor => {
                reveal_strlit("/grpc_services.GRPCServices/GetColor");
            },
            Method::UpdateColor => {
                reveal_strlit("/grpc_services.GRPCServices/UpdateColor");
            },
            Method::DeleteColor => {
                reveal_strlit("/grpc_services.GRPCServices/DeleteColor");
            },
            Method::CreateProductCategoryMapping => {
                reveal_strlit("/grpc_services.GRPCServices/CreateProductCategoryMapping");
            },
            Method::GetProductCategoryMapping => {
                reveal_strlit("/grpc_services.GRPCServices/GetProductCategoryMapping");
            },
            Method::DeleteProductCategoryMapping => {
                reveal_strlit("/grpc_services.GRPCServices/DeleteProductCategoryMapping");
            },
            Method::CreateProductAttributeMapping => {
                reveal_strlit("/grpc_services.GRPCServices/CreateProductAttributeMapping");
            },
            Method::GetProductAttributeMapping => {
                reveal_strlit("/grpc_services.GRPCServices/GetProductAttributeMapping");
            },
            Method::DeleteProductAttributeMapping => {
                reveal_strlit("/grpc_services.GRPCServices/DeleteProductAttributeMapping");
            },
            Method::CreateUserRoleMapping => {
                reveal_strlit("/grpc_services.GRPCServices/CreateUserRoleMapping");
            },
            Method::GetUserRoleMapping => {
                reveal_strlit("/grpc_services.GRPCServices/GetUserRoleMapping");
            },
            Method::DeleteUserRoleMapping => {
                reveal_strlit("/grpc_services.GRPCServices/DeleteUserRoleMapping");
            },
            Method::CreateProductSizeMapping => {
                reveal_strlit("/grpc_services.GRPCServices/CreateProductSizeMapping");
            },
            Method::GetProductSizeMapping => {
                reveal_strlit("/grpc_services.GRPCServices/GetProductSizeMapping");
            },
            Method::DeleteProductSizeMapping => {
                reveal_strlit("/grpc_services.GRPCServices/DeleteProductSizeMapping");
            },
            Method::CreateProductColorMapping => {
                reveal_strlit("/grpc_services.GRPCServices/CreateProductColorMapping");
            },
            Method::GetProductColorMapping => {
                reveal_strlit("/grpc_services.GRPCServices/GetProductColorMapping");
            },
            Method::DeleteProductColorMapping => {
                reveal_strlit("/grpc_services.GRPCServices/DeleteProductColorMapping");
            },
            Method::CreateProductVariant => {
                reveal_strlit("/grpc_services.GRPCServices/CreateProductVariant");
            },
            Method::GetProductVariant => {
                reveal_strlit("/grpc_services.GRPCServices/GetProductVariant");
            },
            Method::UpdateProductVariant => {
                reveal_strlit("/grpc_services.GRPCServices/UpdateProductVariant");
            },
            Method::DeleteProductVariant => {
                reveal_strlit("/grpc_services.GRPCServices/DeleteProductVariant");
            },
            Method::CreateEventLog => {
                reveal_strlit("/grpc_services.GRPCServices/CreateEventLog");
            },
            Method::GetEventLog => {
                reveal_strlit("/grpc_services.GRPCServices/GetEventLog");
            },
            Method::UpdateEventLog => {
                reveal_strlit("/grpc_services.GRPCServices/UpdateEventLog");
            },
            Method::DeleteEventLog => {
                reveal_strlit("/grpc_services.GRPCServices/DeleteEventLog");
            },
            Method::CreateUserActivity => {
                reveal_strlit("/grpc_services.GRPCServices/CreateUserActivity");
            },
            Method::GetUserActivity => {
                reveal_strlit("/grpc_services.GRPCServices/GetUserActivity");
            },
            Method::UpdateUserActivity => {
                reveal_strlit("/grpc_services.GRPCServices/UpdateUserActivity");
            },
            Method::DeleteUserActivity => {
                reveal_strlit("/grpc_services.GRPCServices/DeleteUserActivity");
            },
            Method::CreateInventoryLog => {
                reveal_strlit("/grpc_services.GRPCServices/CreateInventoryLog");
            },
            Method::GetInventoryLog => {
                reveal_strlit("/grpc_services.GRPCServices/GetInventoryLog");
            },
            Method::UpdateInventoryLog => {
                reveal_strlit("/grpc_services.GRPCServices/UpdateInventoryLog");
            },
            Method::DeleteInventoryLog => {
                reveal_strlit("/grpc_services.GRPCServices/DeleteInventoryLog");
            },
            Method::CreatePromotion => {
                reveal_strlit("/grpc_services.GRPCServices/CreatePromotion");
            },
            Method::GetPromotion => {
                reveal_strlit("/grpc_services.GRPCServices/GetPromotion");
            },
            Method::UpdatePromotion => {
                reveal_strlit("/grpc_services.GRPCServices/UpdatePromotion");
            },
            Method::DeletePromotion => {
                reveal_strlit("/grpc_services.GRPCServices/DeletePromotion");
            },
            Method::CreateShippingZone => {
                reveal_strlit("/grpc_services.GRPCServices/CreateShippingZone");
            },
            Method::GetShippingZone => {
                reveal_strlit("/grpc_services.GRPCServices/GetShippingZone");
            },
            Method::UpdateShippingZone => {
                reveal_strlit("/grpc_services.GRPCServices/UpdateShippingZone");
            },
            Method::DeleteShippingZone => {
                reveal_strlit("/grpc_services.GRPCServices/DeleteShippingZone");
            },
            Method::CreatePaymentMethod => {
                reveal_strlit("/grpc_services.GRPCServices/CreatePaymentMethod");
            },
            Method::GetPaymentMethod => {
                reveal_strlit("/grpc_services.GRPCServices/GetPaymentMethod");
            },
            Method::UpdatePaymentMethod => {
                reveal_strlit("/grpc_services.GRPCServices/UpdatePaymentMethod");
            },
            Method::DeletePaymentMethod => {
                reveal_strlit("/grpc_services.GRPCServices/DeletePaymentMethod");
            },
    }
}

/// Every method is among `spec_methods()`.
pub proof fn lemma_method_listed(m: Method)
    ensures
        spec_methods().contains(m),
{
    match m {
            Method::CreateCartItem => assert(spec_methods()[0] == m),
            Method::GetCartItems => assert(spec_methods()[1] == m),
            Method::UpdateCartItem => assert(spec_methods()[2] == m),
            Method::DeleteCartItem => assert(spec_methods()[3] == m),
            Method::CreateProduct => assert(spec_methods()[4] == m),
            Method::SearchProduct => assert(spec_methods()[5] == m),
            Method::UpdateProduct => assert(spec_methods()[6] == m),
            Method::DeleteProduct => assert(spec_methods()[7] == m),
            Method::CreateUser => assert(spec_methods()[8] == m),
            Method::GetUser => assert(spec_methods()[9] == m),
            Method::UpdateUser => assert(spec_methods()[10] == m),
            Method::DeleteUser => assert(spec_methods()[11] == m),
            Method::CreateCategory => assert(spec_methods()[12] == m),
            Method::GetCategory => assert(spec_methods()[13] == m),
            Method::UpdateCategory => assert(spec_methods()[14] == m),
            Method::DeleteCategory => assert(spec_methods()[15] == m),
            Method::CreateOrder => assert(spec_methods()[16] == m),
            Method::GetOrder => assert(spec_methods()[17] == m),
            Method::UpdateOrder => assert(spec_methods()[18] == m),
            Method::DeleteOrder => assert(spec_methods()[19] == m),
            Method::CreateOrderDetail => assert(spec_methods()[20] == m),
            Method::GetOrderDetail => assert(spec_methods()[21] == m),
            Method::UpdateOrderDetail => assert(spec_methods()[22] == m),
            Method::DeleteOrderDetail => assert(spec_methods()[23] == m),
            Method::CreateReview => assert(spec_methods()[24] == m),
            Method::GetReview => assert(spec_methods()[25] == m),
            Method::UpdateReview => assert(spec_methods()[26] == m),
            Method::DeleteReview => assert(spec_methods()[27] == m),
            Method::CreateProductImage => assert(spec_methods()[28] == m),
            Method::GetProductImage => assert(spec_methods()[29] == m),
            Method::UpdateProductImage => assert(spec_methods()[30] == m),
            Method::DeleteProductImage => assert(spec_methods()[31] == m),
            Method::CreateSupplier => assert(spec_methods()[32] == m),
            Method::GetSupplier => assert(spec_methods()[33] == m),
            Method::UpdateSupplier => assert(spec_methods()[34] == m),
            Method::DeleteSupplier => assert(spec_methods()[35] == m),
            Method::CreateInventoryItem => assert(spec_methods()[36] == m),
            Method::GetInventoryItem => assert(spec_methods()[37] == m),
            Method::UpdateInventoryItem => assert(spec_methods()[38] == m),
            Method::DeleteInventoryItem => assert(spec_methods()[39] == m),
            Method::CreateWishlistItem => assert(spec_methods()[40] == m),
            Method::GetWishlistItem => assert(spec_methods()[41] == m),
            Method::UpdateWishlistItem => assert(spec_methods()[42] == m),
            Method::DeleteWishlistItem => assert(spec_methods()[43] == m),
            Method::CreateProductAttribute => assert(spec_methods()[44] == m),
            Method::GetProductAttribute => assert(spec_methods()[45] == m),
            Method::UpdateProductAttribute => assert(spec_methods()[46] == m),
            Method::DeleteProductAttribute => assert(spec_methods()[47] == m),
            Method::CreateDiscount => assert(spec_methods()[48] == m),
            Method::GetDiscount => assert(spec_methods()[49] == m),
            Method::UpdateDiscount => assert(spec_methods()[50] == m),
            Method::DeleteDiscount => assert(spec_methods()[51] == m),
            Method::CreateShippingMethod => assert(spec_methods()[52] == m),
            Method::GetShippingMethod => assert(spec_methods()[53] == m),
            Method::UpdateShippingMethod => assert(spec_methods()[54] == m),
            Method::DeleteShippingMethod => assert(spec_methods()[55] == m),
            Method::CreateUserRole => assert(spec_methods()[56] == m),
            Method::GetUserRole => assert(spec_methods()[57] == m),
            Method::UpdateUserRole => assert(spec_methods()[58] == m),
            Method::DeleteUserRole => assert(spec_methods()[59] == m),
            Method::CreateUserRolesMapping => assert(spec_methods()[60] == m),
            Method::GetUserRolesMapping => assert(spec_methods()[61] == m),
            Method::UpdateUserRolesMapping => assert(spec_methods()[62] == m),
            Method::DeleteUserRolesMapping => assert(spec_methods()[63] == m),
            Method::CreateTransaction => assert(spec_methods()[64] == m),
            Method::GetTransaction => assert(spec_methods()[65] == m),
            Method::UpdateTransaction => assert(spec_methods()[66] == m),
            Method::DeleteTransaction => assert(spec_methods()[67] == m),
            Method::CreateNewsletterSubscriber => assert(spec_methods()[68] == m),
            Method::GetNewsletterSubscriber => assert(spec_methods()[69] == m),
            Method::UpdateNewsletterSubscriber => assert(spec_methods()[70] == m),
            Method::DeleteNewsletterSubscriber => assert(spec_methods()[71] == m),
            Method::CreateProductRating => assert(spec_methods()[72] == m),
            Method::GetProductRating => assert(spec_methods()[73] == m),
            Method::UpdateProductRating => assert(spec_methods()[74] == m),
            Method::DeleteProductRating => assert(spec_methods()[75] == m),
            Method::CreateSize => assert(spec_methods()[76] == m),
            Method::GetSize => assert(spec_methods()[77] == m),
            Method::UpdateSize => assert(spec_methods()[78] == m),
            Method::DeleteSize => assert(spec_methods()[79] == m),
            Method::CreateColor => assert(spec_methods()[80] == m),
            Method::GetColor => assert(spec_methods()[81] == m),
            Method::UpdateColor => assert(spec_methods()[82] == m),
            Method::DeleteColor => assert(spec_methods()[83] == m),
            Method::CreateProductCategoryMapping => assert(spec_methods()[84] == m),
            Method::GetProductCategoryMapping => assert(spec_methods()[85] == m),
            Method::DeleteProductCategoryMapping => assert(spec_methods()[86] == m),
            Method::CreateProductAttributeMapping => assert(spec_methods()[87] == m),
            Method::GetProductAttributeMapping => assert(spec_methods()[88] == m),
            Method::DeleteProductAttributeMapping => assert(spec_methods()[89] == m),
            Method::CreateUserRoleMapping => assert(spec_methods()[90] == m),
            Method::GetUserRoleMapping => assert(spec_methods()[91] == m),
            Method::DeleteUserRoleMapping => assert(spec_methods()[92] == m),
            Method::CreateProductSizeMapping => assert(spec_methods()[93] == m),
            Method::GetProductSizeMapping => assert(spec_methods()[94] == m),
            Method::DeleteProductSizeMapping => assert(spec_methods()[95] == m),
            Method::CreateProductColorMapping => assert(spec_methods()[96] == m),
            Method::GetProductColorMapping => assert(spec_methods()[97] == m),
            Method::DeleteProductColorMapping => assert(spec_methods()[98] == m),
            Method::CreateProductVariant => assert(spec_methods()[99] == m),
            Method::GetProductVariant => assert(spec_methods()[100] == m),
            Method::UpdateProductVariant => assert(spec_methods()[101] == m),
            Method::DeleteProductVariant => assert(spec_methods()[102] == m),
            Method::CreateEventLog => assert(spec_methods()[103] == m),
            Method::GetEventLog => assert(spec_methods()[104] == m),
            Method::UpdateEventLog => assert(spec_methods()[105] == m),
            Method::DeleteEventLog => assert(spec_methods()[106] == m),
            Method::CreateUserActivity => assert(spec_methods()[107] == m),
            Method::GetUserActivity => assert(spec_methods()[108] == m),
            Method::UpdateUserActivity => assert(spec_methods()[109] == m),
            Method::DeleteUserActivity => assert(spec_methods()[110] == m),
            Method::CreateInventoryLog => assert(spec_methods()[111] == m),
            Method::GetInventoryLog => assert(spec_methods()[112] == m),
            Method::UpdateInventoryLog => assert(spec_methods()[113] == m),
            Method::DeleteInventoryLog => assert(spec_methods()[114] == m),
            Method::CreatePromotion => assert(spec_methods()[115] == m),
            Method::GetPromotion => assert(spec_methods()[116] == m),
            Method::UpdatePromotion => assert(spec_methods()[117] == m),
            Method::DeletePromotion => assert(spec_methods()[118] == m),
            Method::CreateShippingZone => assert(spec_methods()[119] == m),
            Method::GetShippingZone => assert(spec_methods()[120] == m),
            Method::UpdateShippingZone => assert(spec_methods()[121] == m),
            Method::DeleteShippingZone => assert(spec_methods()[122] == m),
            Method::CreatePaymentMethod => assert(spec_methods()[123] == m),
            Method::GetPaymentMethod => assert(spec_methods()[124] == m),
            Method::UpdatePaymentMethod => assert(spec_methods()[125] == m),
            Method::DeletePaymentMethod => assert(spec_methods()[126] == m),
    }
}

/// Distinct methods have distinct request paths.
pub proof fn lemma_paths_distinct(m1: Method, m2: Method)
    ensures
        spec_method_path(m1) == spec_method_path(m2) ==> m1 == m2,
{
    lemma_method_at(m1);
    lemma_method_at(m2);
}

/// A request path is `/`, the service name, `/`, then the method name.
pub proof fn lemma_path_format(m: Method)
    ensures
        spec_method_path(m) == "/"@ + SERVICE_NAME@ + "/"@ + spec_method_name(m),
{
    reveal_strlit("/");
    reveal_strlit("grpc_services.GRPCServices");
    match m {
            Method::CreateCartItem => {
                reveal_strlit("/grpc_services.GRPCServices/CreateCartItem");
                reveal_strlit("CreateCartItem");
            },
            Method::GetCartItems => {
                reveal_strlit("/grpc_services.GRPCServices/GetCartItems");
                reveal_strlit("GetCartItems");
            },
            Method::UpdateCartItem => {
                reveal_strlit("/grpc_services.GRPCServices/UpdateCartItem");
                reveal_strlit("UpdateCartItem");
            },
            Method::DeleteCartItem => {
                reveal_strlit("/grpc_services.GRPCServices/DeleteCartItem");
                reveal_strlit("DeleteCartItem");
            },
            Method::CreateProduct => {
                reveal_strlit("/grpc_services.GRPCServices/CreateProduct");
                reveal_strlit("CreateProduct");
            },
            Method::SearchProduct => {
                reveal_strlit("/grpc_services.GRPCServices/SearchProduct");
                reveal_strlit("SearchProduct");
            },
            Method::UpdateProduct => {
                reveal_strlit("/grpc_services.GRPCServices/UpdateProduct");
                reveal_strlit("UpdateProduct");
            },
            Method::DeleteProduct => {
                reveal_strlit("/grpc_services.GRPCServices/DeleteProduct");
                reveal_strlit("DeleteProduct");
            },
            Method::CreateUser => {
                reveal_strlit("/grpc_services.GRPCServices/CreateUser");
                reveal_strlit("CreateUser");
            },
            Method::GetUser => {
                reveal_strlit("/grpc_services.GRPCServices/GetUser");
                reveal_strlit("GetUser");
            },
            Method::UpdateUser => {
                reveal_strlit("/grpc_services.GRPCServices/UpdateUser");
                reveal_strlit("UpdateUser");
            },
            Method::DeleteUser => {
                reveal_strlit("/grpc_services.GRPCServices/DeleteUser");
                reveal_strlit("DeleteUser");
            },
            Method::CreateCategory => {
                reveal_strlit("/grpc_services.GRPCServices/CreateCategory");
                reveal_strlit("CreateCategory");
            },
            Method::GetCategory => {
                reveal_strlit("/grpc_services.GRPCServices/GetCategory");
                reveal_strlit("GetCategory");
            },
            Method::UpdateCategory => {
                reveal_strlit("/grpc_services.GRPCServices/UpdateCategory");
                reveal_strlit("UpdateCategory");
            },
            Method::DeleteCategory => {
                reveal_strlit("/grpc_services.GRPCServices/DeleteCategory");
                reveal_strlit("DeleteCategory");
            },
            Method::CreateOrder => {
                reveal_strlit("/grpc_services.GRPCServices/CreateOrder");
                reveal_strlit("CreateOrder");
            },
            Method::GetOrder => {
                reveal_strlit("/grpc_services.GRPCServices/GetOrder");
                reveal_strlit("GetOrder");
            },
            Method::UpdateOrder => {
                reveal_strlit("/grpc_services.GRPCServices/UpdateOrder");
                reveal_strlit("UpdateOrder");
            },
            Method::DeleteOrder => {
                reveal_strlit("/grpc_services.GRPCServices/DeleteOrder");
                reveal_strlit("DeleteOrder");
            },
            Method::CreateOrderDetail => {
                reveal_strlit("/grpc_services.GRPCServices/CreateOrderDetail");
                reveal_strlit("CreateOrderDetail");
            },
            Method::GetOrderDetail => {
                reveal_strlit("/grpc_services.GRPCServices/GetOrderDetail");
                reveal_strlit("GetOrderDetail");
            },
            Method::UpdateOrderDetail => {
                reveal_strlit("/grpc_services.GRPCServices/UpdateOrderDetail");
                reveal_strlit("UpdateOrderDetail");
            },
            Method::DeleteOrderDetail => {
                reveal_strlit("/grpc_services.GRPCServices/DeleteOrderDetail");
                reveal_strlit("DeleteOrderDetail");
            },
            Method::CreateReview => {
                reveal_strlit("/grpc_services.GRPCServices/CreateReview");
                reveal_strlit("CreateReview");
            },
            Method::GetReview => {
                reveal_strlit("/grpc_services.GRPCServices/GetReview");
                reveal_strlit("GetReview");
            },
            Method::UpdateReview => {
                reveal_strlit("/grpc_services.GRPCServices/UpdateReview");
                reveal_strlit("UpdateReview");
            },
            Method::DeleteReview => {
                reveal_strlit("/grpc_services.GRPCServices/DeleteReview");
                reveal_strlit("DeleteReview");
            },
            Method::CreateProductImage => {
                reveal_strlit("/grpc_services.GRPCServices/CreateProductImage");
                reveal_strlit("CreateProductImage");
            },
            Method::GetProductImage => {
                reveal_strlit("/grpc_services.GRPCServices/GetProductImage");
                reveal_strlit("GetProductImage");
            },
            Method::UpdateProductImage => {
                reveal_strlit("/grpc_services.GRPCServices/UpdateProductImage");
                reveal_strlit("UpdateProductImage");
            },
            Method::DeleteProductImage => {
                reveal_strlit("/grpc_services.GRPCServices/DeleteProductImage");
                reveal_strlit("DeleteProductImage");
            },
            Method::CreateSupplier => {
                reveal_strlit("/grpc_services.GRPCServices/CreateSupplier");
                reveal_strlit("CreateSupplier");
            },
            Method::GetSupplier => {
                reveal_strlit("/grpc_services.GRPCServices/GetSupplier");
                reveal_strlit("GetSupplier");
            },
            Method::UpdateSupplier => {
                reveal_strlit("/grpc_services.GRPCServices/UpdateSupplier");
                reveal_strlit("UpdateSupplier");
            },
            Method::DeleteSupplier => {
                reveal_strlit("/grpc_services.GRPCServices/DeleteSupplier");
                reveal_strlit("DeleteSupplier");
            },
            Method::CreateInventoryItem => {
                reveal_strlit("/grpc_services.GRPCServices/CreateInventoryItem");
                reveal_strlit("CreateInventoryItem");
            },
            Method::GetInventoryItem => {
                reveal_strlit("/grpc_services.GRPCServices/GetInventoryItem");
                reveal_strlit("GetInventoryItem");
            },
            Method::UpdateInventoryItem => {
                reveal_strlit("/grpc_services.GRPCServices/UpdateInventoryItem");
                reveal_strlit("UpdateInventoryItem");
            },
            Method::DeleteInventoryItem => {
                reveal_strlit("/grpc_services.GRPCServices/DeleteInventoryItem");
                reveal_strlit("DeleteInventoryItem");
            },
            Method::CreateWishlistItem => {
                reveal_strlit("/grpc_services.GRPCServices/CreateWishlistItem");
                reveal_strlit("CreateWishlistItem");
            },
            Method::GetWishlistItem => {
                reveal_strlit("/grpc_services.GRPCServices/GetWishlistItem");
                reveal_strlit("GetWishlistItem");
            },
            Method::UpdateWishlistItem => {
                reveal_strlit("/grpc_services.GRPCServices/UpdateWishlistItem");
                reveal_strlit("UpdateWishlistItem");
            },
            Method::DeleteWishlistItem => {
                reveal_strlit("/grpc_services.GRPCServices/DeleteWishlistItem");
                reveal_strlit("DeleteWishlistItem");
            },
            Method::CreateProductAttribute => {
                reveal_strlit("/grpc_services.GRPCServices/CreateProductAttribute");
                reveal_strlit("CreateProductAttribute");
            },
            Method::GetProductAttribute => {
                reveal_strlit("/grpc_services.GRPCServices/GetProductAttribute");
                reveal_strlit("GetProductAttribute");
            },
            Method::UpdateProductAttribute => {
                reveal_strlit("/grpc_services.GRPCServices/UpdateProductAttribute");
                reveal_strlit("UpdateProductAttribute");
            },
            Method::DeleteProductAttribute => {
                reveal_strlit("/grpc_services.GRPCServices/DeleteProductAttribute");
                reveal_strlit("DeleteProductAttribute");
            },
            Method::CreateDiscount => {
                reveal_strlit("/grpc_services.GRPCServices/CreateDiscount");
                reveal_strlit("CreateDiscount");
            },
            Method::GetDiscount => {
                reveal_strlit("/grpc_services.GRPCServices/GetDiscount");
                reveal_strlit("GetDiscount");
            },
            Method::UpdateDiscount => {
                reveal_strlit("/grpc_services.GRPCServices/UpdateDiscount");
                reveal_strlit("UpdateDiscount");
            },
            Method::DeleteDiscount => {
                reveal_strlit("/grpc_services.GRPCServices/DeleteDiscount");
                reveal_strlit("DeleteDiscount");
            },
            Method::CreateShippingMethod => {
                reveal_strlit("/grpc_services.GRPCServices/CreateShippingMethod");
                reveal_strlit("CreateShippingMethod");
            },
            Method::GetShippingMethod => {
                reveal_strlit("/grpc_services.GRPCServices/GetShippingMethod");
                reveal_strlit("GetShippingMethod");
            },
            Method::UpdateShippingMethod => {
                reveal_strlit("/grpc_services.GRPCServices/UpdateShippingMethod");
                reveal_strlit("UpdateShippingMethod");
            },
            Method::DeleteShippingMethod => {
                reveal_strlit("/grpc_services.GRPCServices/DeleteShippingMethod");
                reveal_strlit("DeleteShippingMethod");
            },
            Method::CreateUserRole => {
                reveal_strlit("/grpc_services.GRPCServices/CreateUserRole");
                reveal_strlit("CreateUserRole");
            },
            Method::GetUserRole => {
                reveal_strlit("/grpc_services.GRPCServices/GetUserRole");
                reveal_strlit("GetUserRole");
            },
            Method::UpdateUserRole => {
                reveal_strlit("/grpc_services.GRPCServices/UpdateUserRole");
                reveal_strlit("UpdateUserRole");
            },
            Method::DeleteUserRole => {
                reveal_strlit("/grpc_services.GRPCServices/DeleteUserRole");
                reveal_strlit("DeleteUserRole");
            },
            Method::CreateUserRolesMapping => {
                reveal_strlit("/grpc_services.GRPCServices/CreateUserRolesMapping");
                reveal_strlit("CreateUserRolesMapping");
            },
            Method::GetUserRolesMapping => {
                reveal_strlit("/grpc_services.GRPCServices/GetUserRolesMapping");
                reveal_strlit("GetUserRolesMapping");
            },
            Method::UpdateUserRolesMapping => {
                reveal_strlit("/grpc_services.GRPCServices/UpdateUserRolesMapping");
                reveal_strlit("UpdateUserRolesMapping");
            },
            Method::DeleteUserRolesMapping => {
                reveal_strlit("/grpc_services.GRPCServices/DeleteUserRolesMapping");
                reveal_strlit("DeleteUserRolesMapping");
            },
            Method::CreateTransaction => {
                reveal_strlit("/grpc_services.GRPCServices/CreateTransaction");
                reveal_strlit("CreateTransaction");
            },
            Method::GetTransaction => {
                reveal_strlit("/grpc_services.GRPCServices/GetTransaction");
                reveal_strlit("GetTransaction");
            },
            Method::UpdateTransaction => {
                reveal_strlit("/grpc_services.GRPCServices/UpdateTransaction");
                reveal_strlit("UpdateTransaction");
            },
            Method::DeleteTransaction => {
                reveal_strlit("/grpc_services.GRPCServices/DeleteTransaction");
                reveal_strlit("DeleteTransaction");
            },
            Method::CreateNewsletterSubscriber => {
                reveal_strlit("/grpc_services.GRPCServices/CreateNewsletterSubscriber");
                reveal_strlit("CreateNewsletterSubscriber");
            },
            Method::GetNewsletterSubscriber => {
                reveal_strlit("/grpc_services.GRPCServices/GetNewsletterSubscriber");
                reveal_strlit("GetNewsletterSubscriber");
            },
            Method::UpdateNewsletterSubscriber => {
                reveal_strlit("/grpc_services.GRPCServices/UpdateNewsletterSubscriber");
                reveal_strlit("UpdateNewsletterSubscriber");
            },
            Method::DeleteNewsletterSubscriber => {
                reveal_strlit("/grpc_services.GRPCServices/DeleteNewsletterSubscriber");
                reveal_strlit("DeleteNewsletterSubscriber");
            },
            Method::CreateProductRating => {
                reveal_strlit("/grpc_services.GRPCServices/CreateProductRating");
                reveal_strlit("CreateProductRating");
            },
            Method::GetProductRating => {
                reveal_strlit("/grpc_services.GRPCServices/GetProductRating");
                reveal_strlit("GetProductRating");
            },
            Method::UpdateProductRating => {
                reveal_strlit("/grpc_services.GRPCServices/UpdateProductRating");
                reveal_strlit("UpdateProductRating");
            },
            Method::DeleteProductRating => {
                reveal_strlit("/grpc_services.GRPCServices/DeleteProductRating");
                reveal_strlit("DeleteProductRating");
            },
            Method::CreateSize => {
                reveal_strlit("/grpc_services.GRPCServices/CreateSize");
                reveal_strlit("CreateSize");
            },
            Method::GetSize => {
                reveal_strlit("/grpc_services.GRPCServices/GetSize");
                reveal_strlit("GetSize");
            },
            Method::UpdateSize => {
                reveal_strlit("/grpc_services.GRPCServices/UpdateSize");
                reveal_strlit("UpdateSize");
            },
            Method::DeleteSize => {
                reveal_strlit("/grpc_services.GRPCServices/DeleteSize");
                reveal_strlit("DeleteSize");
            },
            Method::CreateColor => {
                reveal_strlit("/grpc_services.GRPCServices/CreateColor");
                reveal_strlit("CreateColor");
            },
            Method::GetColor => {
                reveal_strlit("/grpc_services.GRPCServices/GetColor");
                reveal_strlit("GetColor");
            },
            Method::UpdateColor => {
                reveal_strlit("/grpc_services.GRPCServices/UpdateColor");
                reveal_strlit("UpdateColor");
            },
            Method::DeleteColor => {
                reveal_strlit("/grpc_services.GRPCServices/DeleteColor");
                reveal_strlit("DeleteColor");
            },
            Method::CreateProductCategoryMapping => {
                reveal_strlit("/grpc_services.GRPCServices/CreateProductCategoryMapping");
                reveal_strlit("CreateProductCategoryMapping");
            },
            Method::GetProductCategoryMapping => {
                reveal_strlit("/grpc_services.GRPCServices/GetProductCategoryMapping");
                reveal_strlit("GetProductCategoryMapping");
            },
            Method::DeleteProductCategoryMapping => {
                reveal_strlit("/grpc_services.GRPCServices/DeleteProductCategoryMapping");
                reveal_strlit("DeleteProductCategoryMapping");
            },
            Method::CreateProductAttributeMapping => {
                reveal_strlit("/grpc_services.GRPCServices/CreateProductAttributeMapping");
                reveal_strlit("CreateProductAttributeMapping");
            },
            Method::GetProductAttributeMapping => {
                reveal_strlit("/grpc_services.GRPCServices/GetProductAttributeMapping");
                reveal_strlit("GetProductAttributeMapping");
            },
            Method::DeleteProductAttributeMapping => {
                reveal_strlit("/grpc_services.GRPCServices/DeleteProductAttributeMapping");
                reveal_strlit("DeleteProductAttributeMapping");
            },
            Method::CreateUserRoleMapping => {
                reveal_strlit("/grpc_services.GRPCServices/CreateUserRoleMapping");
                reveal_strlit("CreateUserRoleMapping");
            },
            Method::GetUserRoleMapping => {
                reveal_strlit("/grpc_services.GRPCServices/GetUserRoleMapping");
                reveal_strlit("GetUserRoleMapping");
            },
            Method::DeleteUserRoleMapping => {
                reveal_strlit("/grpc_services.GRPCServices/DeleteUserRoleMapping");
                reveal_strlit("DeleteUserRoleMapping");
            },
            Method::CreateProductSizeMapping => {
                reveal_strlit("/grpc_services.GRPCServices/CreateProductSizeMapping");
                reveal_strlit("CreateProductSizeMapping");
            },
            Method::GetProductSizeMapping => {
                reveal_strlit("/grpc_services.GRPCServices/GetProductSizeMapping");
                reveal_strlit("GetProductSizeMapping");
            },
            Method::DeleteProductSizeMapping => {
                reveal_strlit("/grpc_services.GRPCServices/DeleteProductSizeMapping");
                reveal_strlit("DeleteProductSizeMapping");
            },
            Method::CreateProductColorMapping => {
                reveal_strlit("/grpc_services.GRPCServices/CreateProductColorMapping");
                reveal_strlit("CreateProductColorMapping");
            },
            Method::GetProductColorMapping => {
                reveal_strlit("/grpc_services.GRPCServices/GetProductColorMapping");
                reveal_strlit("GetProductColorMapping");
            },
            Method::DeleteProductColorMapping => {
                reveal_strlit("/grpc_services.GRPCServices/DeleteProductColorMapping");
                reveal_strlit("DeleteProductColorMapping");
            },
            Method::CreateProductVariant => {
                reveal_strlit("/grpc_services.GRPCServices/CreateProductVariant");
                reveal_strlit("CreateProductVariant");
            },
            Method::GetProductVariant => {
                reveal_strlit("/grpc_services.GRPCServices/GetProductVariant");
                reveal_strlit("GetProductVariant");
            },
            Method::UpdateProductVariant => {
                reveal_strlit("/grpc_services.GRPCServices/UpdateProductVariant");
                reveal_strlit("UpdateProductVariant");
            },
            Method::DeleteProductVariant => {
                reveal_strlit("/grpc_services.GRPCServices/DeleteProductVariant");
                reveal_strlit("DeleteProductVariant");
            },
            Method::CreateEventLog => {
                reveal_strlit("/grpc_services.GRPCServices/CreateEventLog");
                reveal_strlit("CreateEventLog");
            },
            Method::GetEventLog => {
                reveal_strlit("/grpc_services.GRPCServices/GetEventLog");
                reveal_strlit("GetEventLog");
            },
            Method::UpdateEventLog => {
                reveal_strlit("/grpc_services.GRPCServices/UpdateEventLog");
                reveal_strlit("UpdateEventLog");
            },
            Method::DeleteEventLog => {
                reveal_strlit("/grpc_services.GRPCServices/DeleteEventLog");
                reveal_strlit("DeleteEventLog");
            },
            Method::CreateUserActivity => {
                reveal_strlit("/grpc_services.GRPCServices/CreateUserActivity");
                reveal_strlit("CreateUserActivity");
            },
            Method::GetUserActivity => {
                reveal_strlit("/grpc_services.GRPCServices/GetUserActivity");
                reveal_strlit("GetUserActivity");
            },
            Method::UpdateUserActivity => {
                reveal_strlit("/grpc_services.GRPCServices/UpdateUserActivity");
                reveal_strlit("UpdateUserActivity");
            },
            Method::DeleteUserActivity => {
                reveal_strlit("/grpc_services.GRPCServices/DeleteUserActivity");
                reveal_strlit("DeleteUserActivity");
            },
            Method::CreateInventoryLog => {
                reveal_strlit("/grpc_services.GRPCServices/CreateInventoryLog");
                reveal_strlit("CreateInventoryLog");
            },
            Method::GetInventoryLog => {
                reveal_strlit("/grpc_services.GRPCServices/GetInventoryLog");
                reveal_strlit("GetInventoryLog");
            },
            Method::UpdateInventoryLog => {
                reveal_strlit("/grpc_services.GRPCServices/UpdateInventoryLog");
                reveal_strlit("UpdateInventoryLog");
            },
            Method::DeleteInventoryLog => {
                reveal_strlit("/grpc_services.GRPCServices/DeleteInventoryLog");
                reveal_strlit("DeleteInventoryLog");
            },
            Method::CreatePromotion => {
                reveal_strlit("/grpc_services.GRPCServices/CreatePromotion");
                reveal_strlit("CreatePromotion");
            },
            Method::GetPromotion => {
                reveal_strlit("/grpc_services.GRPCServices/GetPromotion");
                reveal_strlit("GetPromotion");
            },
            Method::UpdatePromotion => {
                reveal_strlit("/grpc_services.GRPCServices/UpdatePromotion");
                reveal_strlit("UpdatePromotion");
            },
            Method::DeletePromotion => {
                reveal_strlit("/grpc_services.GRPCServices/DeletePromotion");
                reveal_strlit("DeletePromotion");
            },
            Method::CreateShippingZone => {
                reveal_strlit("/grpc_services.GRPCServices/CreateShippingZone");
                reveal_strlit("CreateShippingZone");
            },
            Method::GetShippingZone => {
                reveal_strlit("/grpc_services.GRPCServices/GetShippingZone");
                reveal_strlit("GetShippingZone");
            },
            Method::UpdateShippingZone => {
                reveal_strlit("/grpc_services.GRPCServices/UpdateShippingZone");
                reveal_strlit("UpdateShippingZone");
            },
            Method::DeleteShippingZone => {
                reveal_strlit("/grpc_services.GRPCServices/DeleteShippingZone");
                reveal_strlit("DeleteShippingZone");
            },
            Method::CreatePaymentMethod => {
                reveal_strlit("/grpc_services.GRPCServices/CreatePaymentMethod");
                reveal_strlit("CreatePaymentMethod");
            },
            Method::GetPaymentMethod => {
                reveal_strlit("/grpc_services.GRPCServices/GetPaymentMethod");
                reveal_strlit("GetPaymentMethod");
            },
            Method::UpdatePaymentMethod => {
                reveal_strlit("/grpc_services.GRPCServices/UpdatePaymentMethod");
                reveal_strlit("UpdatePaymentMethod");
            },
            Method::DeletePaymentMethod => {
                reveal_strlit("/grpc_services.GRPCServices/DeletePaymentMethod");
                reveal_strlit("DeletePaymentMethod");
            },
    }
    assert(spec_method_path(m) =~= "/"@ + SERVICE_NAME@ + "/"@ + spec_method_name(m));
}

} // verus!
